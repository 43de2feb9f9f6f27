//! The player at work: its link, the devices it knows, and what it shows.

use crate::hci::{
    AuthenticationRequirements, ConnectionEvent, HciCommand, IoCapability, LinkType,
    OobDataPresence, PageScanRepetitionMode, RemoteAddr, Role, Status,
};
use crate::states::devices;
use crate::states::devices::{PairedDevice, PairedDevices};
use crate::states::remote_control;
use crate::states::remote_control::{RemoteControlScreen, RemoteControlSession};
use crate::states::SubState;
use crate::time::current_unix_time;
use vstd::prelude::*;

verus! {

/// The link to another device.
#[derive(Clone, Copy, Debug, PartialEq, Eq, Structural)]
pub enum ConnectionState {
    Disconnected,
    /// A link is being made; the flag tells that it was made from here, with a known device.
    Connecting(RemoteAddr, bool),
    Connected(RemoteAddr),
}

impl Default for ConnectionState {
    fn default() -> (s: Self)
        ensures
            s is Disconnected,
    {
        ConnectionState::Disconnected
    }
}

impl ConnectionState {
    /// The device at the other end.
    pub open spec fn peer(self) -> Option<RemoteAddr> {
        match self {
            ConnectionState::Disconnected => None,
            ConnectionState::Connecting(addr, _) => Some(addr),
            ConnectionState::Connected(addr) => Some(addr),
        }
    }

    /// Whether a link with a known device is being made from here.
    pub open spec fn reconnecting(self) -> bool {
        self matches ConnectionState::Connecting(_, reconnecting) && reconnecting
    }

    pub fn addr(self) -> (addr: Option<RemoteAddr>)
        ensures
            addr == self.peer(),
    {
        match self {
            ConnectionState::Connecting(addr, _) | ConnectionState::Connected(addr) => Some(addr),
            ConnectionState::Disconnected => None,
        }
    }

    pub fn is_reconnecting(self) -> (b: bool)
        ensures
            b == self.reconnecting(),
    {
        match self {
            ConnectionState::Connecting(_, reconnecting) => reconnecting,
            _ => false,
        }
    }
}

/// What a button of the player does. The change of volume is the bit pattern of a
/// single-precision number.
#[derive(Clone, Copy, Debug, PartialEq, Eq, Structural)]
pub enum ButtonEvent {
    ModifyVolume(u32),
    ReconnectTo(RemoteAddr),
}

/// What the player is told.
#[derive(Debug, PartialEq, Eq)]
pub enum Message {
    ConnectionEvent(ConnectionEvent),
    PairedDevicesLoaded(Vec<PairedDevice>),
    NewAvrcpSession,
    RemoteControlEvent(remote_control::Message),
    ServersStarted,
    Error(String),
    Button(ButtonEvent),
}

/// What the player asks to be done.
#[derive(Debug, PartialEq, Eq)]
pub enum Effect {
    LoadPairedDevices,
    Hci(HciCommand),
    /// Bring a new link, made from here, to the point where it can carry audio.
    SetUpLink { addr: RemoteAddr, handle: u16 },
    /// Change the volume, which stays between zero and one.
    ModifyVolume(u32),
    RemoteControl(remote_control::Effect),
}

/// What the player listens to.
#[derive(Clone, Copy, Debug, PartialEq, Eq, Structural)]
pub enum Source {
    ConnectionEvents,
    L2capServers,
    RemoteControl,
}

/// The player at work.
pub struct Running {
    pub connection_state: ConnectionState,
    pub paired_devices: PairedDevices,
    pub remote_control_session: Option<RemoteControlSession>,
    /// Whether there is a channel to the servers.
    pub servers_started: bool,
}

/// The player at work, in the terms in which it is specified.
pub struct RunningModel {
    pub connection: ConnectionState,
    pub devices: Map<u64, PairedDevice>,
    pub session: Option<RemoteControlSession>,
    pub servers_started: bool,
}

impl Running {
    pub open spec fn model(self) -> RunningModel {
        RunningModel {
            connection: self.connection_state,
            devices: self.paired_devices@,
            session: self.remote_control_session,
            servers_started: self.servers_started,
        }
    }
}

/// Whether a device that asks for a link gets it: only one that can carry audio, and only while
/// there is no other.
pub open spec fn admits(state: ConnectionState, link_type: LinkType) -> bool {
    link_type is Acl && state is Disconnected
}

/// The link after an event.
pub open spec fn connection_after(state: ConnectionState, event: ConnectionEvent) -> ConnectionState {
    match event {
        ConnectionEvent::ConnectionComplete { status, addr, .. } => if status is Success {
            ConnectionState::Connected(addr)
        } else {
            ConnectionState::Disconnected
        },
        ConnectionEvent::DisconnectionComplete => ConnectionState::Disconnected,
        ConnectionEvent::ConnectionRequest { addr, link_type } => if admits(state, link_type) {
            ConnectionState::Connecting(addr, false)
        } else {
            state
        },
        _ => state,
    }
}

/// The known devices after an event at a given time.
pub open spec fn devices_after(
    known: Map<u64, PairedDevice>,
    event: ConnectionEvent,
    now: u64,
) -> Map<u64, PairedDevice> {
    match event {
        ConnectionEvent::ConnectionComplete { addr, .. } => known.insert(
            addr.value,
            PairedDevice { last_connected: now, ..devices::known(known, addr) },
        ),
        ConnectionEvent::RemoteNameRequestComplete { addr, name, status } => if status is Success {
            known.insert(
                addr.value,
                PairedDevice { name: Some(name), ..devices::known(known, addr) },
            )
        } else {
            known
        },
        ConnectionEvent::LinkKeyNotification { addr, key } => known.insert(
            addr.value,
            PairedDevice { link_key: key, ..devices::known(known, addr) },
        ),
        _ => known,
    }
}

/// The answer to a device that asks for the key it shares with the player.
pub open spec fn link_key_reply(known: Map<u64, PairedDevice>, addr: RemoteAddr) -> HciCommand {
    if known.contains_key(addr.value) {
        HciCommand::LinkKeyPresent { addr, key: known[addr.value].link_key }
    } else {
        HciCommand::LinkKeyNotPresent { addr }
    }
}

impl RunningModel {
    /// The player as it begins: it knows nothing and is linked with nothing.
    pub open spec fn fresh() -> Self {
        RunningModel {
            connection: ConnectionState::Disconnected,
            devices: Map::empty(),
            session: None,
            servers_started: false,
        }
    }

    /// What the player listens to.
    pub open spec fn sources(self) -> Seq<Source> {
        seq![Source::ConnectionEvents, Source::L2capServers] + (if self.session is Some {
            seq![Source::RemoteControl]
        } else {
            seq![]
        })
    }

    pub open spec fn well_formed(self) -> bool {
        &&& devices::filed(self.devices)
        &&& self.session matches Some(session) ==> session.well_formed()
    }

    /// What an event of the controller makes the player ask for.
    pub open spec fn event_effects(self, event: ConnectionEvent) -> Seq<Effect> {
        match event {
            ConnectionEvent::ConnectionComplete { addr, handle, .. } => if self.connection.reconnecting()
                && self.servers_started {
                seq![Effect::SetUpLink { addr, handle }]
            } else {
                seq![]
            },
            ConnectionEvent::ConnectionRequest { addr, link_type } => if admits(
                self.connection,
                link_type,
            ) {
                seq![
                    Effect::Hci(HciCommand::AcceptConnectionRequest { addr, role: Role::Slave }),
                    Effect::Hci(
                        HciCommand::RequestRemoteName { addr, mode: PageScanRepetitionMode::R1 },
                    ),
                ]
            } else {
                seq![
                    Effect::Hci(
                        HciCommand::RejectConnectionRequest {
                            addr,
                            reason: Status::ConnectionRejectedDueToLimitedResources,
                        },
                    ),
                ]
            },
            ConnectionEvent::PinCodeRequest { addr } => seq![
                Effect::Hci(HciCommand::PinCodeRequestReply { addr, pin: "0000" }),
            ],
            ConnectionEvent::LinkKeyRequest { addr } => seq![
                Effect::Hci(link_key_reply(self.devices, addr)),
            ],
            ConnectionEvent::IoCapabilityRequest { addr } => seq![
                Effect::Hci(
                    HciCommand::IoCapabilityReply {
                        addr,
                        capability: IoCapability::NoInputNoOutput,
                        oob: OobDataPresence::NotPresent,
                        requirements: AuthenticationRequirements::DedicatedBondingProtected,
                    },
                ),
            ],
            ConnectionEvent::UserConfirmationRequest { addr } => seq![
                Effect::Hci(HciCommand::UserConfirmationRequestAccept { addr }),
            ],
            _ => seq![],
        }
    }

    /// The player after a message at a given time.
    pub open spec fn after(self, message: Message, now: u64) -> Self {
        match message {
            Message::ConnectionEvent(event) => RunningModel {
                connection: connection_after(self.connection, event),
                devices: devices_after(self.devices, event, now),
                ..self
            },
            Message::PairedDevicesLoaded(list) => RunningModel {
                devices: devices::merged(self.devices, list@),
                ..self
            },
            Message::NewAvrcpSession => RunningModel {
                session: Some(RemoteControlSession::fresh()),
                ..self
            },
            Message::RemoteControlEvent(m) => RunningModel {
                session: match self.session {
                    Some(session) => Some(session.after(m)),
                    None => None,
                },
                ..self
            },
            Message::Button(ButtonEvent::ReconnectTo(addr)) => RunningModel {
                connection: ConnectionState::Connecting(addr, true),
                ..self
            },
            Message::ServersStarted => RunningModel { servers_started: true, ..self },
            Message::Button(ButtonEvent::ModifyVolume(_)) | Message::Error(_) => self,
        }
    }

    /// What a message makes the player ask for.
    pub open spec fn effects(self, message: Message) -> Seq<Effect> {
        match message {
            Message::ConnectionEvent(event) => self.event_effects(event),
            Message::RemoteControlEvent(m) => match self.session {
                Some(session) => passed_on(session.effects_of(m)),
                None => seq![],
            },
            Message::Button(ButtonEvent::ModifyVolume(d)) => seq![Effect::ModifyVolume(d)] + (
            match self.session {
                Some(session) => passed_on(
                    session.command_effects(remote_control::RemoteControlCommand::VolumeChanged),
                ),
                None => seq![],
            }),
            Message::Button(ButtonEvent::ReconnectTo(addr)) => seq![
                Effect::Hci(HciCommand::CreateConnection { addr, allow_role_switch: true }),
            ],
            _ => seq![],
        }
    }

    /// Whether the message can come in this state.
    pub open spec fn can_take(self, message: Message) -> bool {
        message matches Message::RemoteControlEvent(m) ==> (self.session matches Some(session)
            ==> session.can_take(m))
    }
}

/// What the remote control asks for, asked for by the player.
pub open spec fn passed_on(effects: Seq<remote_control::Effect>) -> Seq<Effect> {
    effects.map_values(|e: remote_control::Effect| Effect::RemoteControl(e))
}

fn pass_on(effects: Vec<remote_control::Effect>) -> (r: Vec<Effect>)
    ensures
        r@ == passed_on(effects@),
{
    let mut r: Vec<Effect> = Vec::new();
    for e in it: effects
        invariant
            it.seq() == effects@,
            r@ == passed_on(effects@.take(it.index() as int)),
    {
        r.push(Effect::RemoteControl(e));
        assert(r@ =~= passed_on(effects@.take(it.index() + 1)));
    }
    assert(r@ =~= passed_on(effects@));
    r
}

impl Running {
    pub open spec fn well_formed(self) -> bool {
        self.model().well_formed()
    }

    /// The player as it begins, which first loads the devices it knew.
    pub fn new() -> (r: (Self, Vec<Effect>))
        ensures
            r.0.model() == RunningModel::fresh(),
            r.0.well_formed(),
            r.1@ == seq![Effect::LoadPairedDevices],
    {
        (
            Running {
                connection_state: ConnectionState::Disconnected,
                paired_devices: PairedDevices::new(),
                remote_control_session: None,
                servers_started: false,
            },
            vec![Effect::LoadPairedDevices],
        )
    }

    /// Takes an event of the controller at a given time.
    pub fn handle_connection_event_at(&mut self, event: ConnectionEvent, now: u64) -> (effects: Vec<
        Effect,
    >)
        ensures
            final(self).model() == old(self).model().after(Message::ConnectionEvent(event), now),
            effects@ == old(self).model().event_effects(event),
            old(self).well_formed() ==> final(self).well_formed(),
    {
        match event {
            ConnectionEvent::ConnectionComplete { status, addr, handle } => {
                let reconnecting = self.connection_state.is_reconnecting();
                self.connection_state = match status {
                    Status::Success => ConnectionState::Connected(addr),
                    _ => ConnectionState::Disconnected,
                };
                self.paired_devices.set_last_connected(addr, now);
                if reconnecting && self.servers_started {
                    vec![Effect::SetUpLink { addr, handle }]
                } else {
                    Vec::new()
                }
            },
            ConnectionEvent::DisconnectionComplete => {
                self.connection_state = ConnectionState::Disconnected;
                Vec::new()
            },
            ConnectionEvent::ConnectionRequest { addr, link_type } => {
                if link_type == LinkType::Acl && self.connection_state
                    == ConnectionState::Disconnected {
                    self.connection_state = ConnectionState::Connecting(addr, false);
                    vec![
                        Effect::Hci(HciCommand::AcceptConnectionRequest { addr, role: Role::Slave }),
                        Effect::Hci(
                            HciCommand::RequestRemoteName { addr, mode: PageScanRepetitionMode::R1 },
                        ),
                    ]
                } else {
                    vec![
                        Effect::Hci(
                            HciCommand::RejectConnectionRequest {
                                addr,
                                reason: Status::ConnectionRejectedDueToLimitedResources,
                            },
                        ),
                    ]
                }
            },
            ConnectionEvent::RemoteNameRequestComplete { addr, name, status } => {
                if status == Status::Success {
                    self.paired_devices.set_name(addr, name);
                }
                Vec::new()
            },
            ConnectionEvent::PinCodeRequest { addr } => vec![
                Effect::Hci(HciCommand::PinCodeRequestReply { addr, pin: "0000" }),
            ],
            ConnectionEvent::LinkKeyRequest { addr } => {
                let reply = match self.paired_devices.get(addr) {
                    Some(device) => HciCommand::LinkKeyPresent { addr, key: device.link_key },
                    None => HciCommand::LinkKeyNotPresent { addr },
                };
                vec![Effect::Hci(reply)]
            },
            ConnectionEvent::LinkKeyNotification { addr, key } => {
                self.paired_devices.set_link_key(addr, key);
                Vec::new()
            },
            ConnectionEvent::IoCapabilityRequest { addr } => vec![
                Effect::Hci(
                    HciCommand::IoCapabilityReply {
                        addr,
                        capability: IoCapability::NoInputNoOutput,
                        oob: OobDataPresence::NotPresent,
                        requirements: AuthenticationRequirements::DedicatedBondingProtected,
                    },
                ),
            ],
            ConnectionEvent::UserConfirmationRequest { addr } => vec![
                Effect::Hci(HciCommand::UserConfirmationRequestAccept { addr }),
            ],
            ConnectionEvent::IoCapabilityResponse
            | ConnectionEvent::SimplePairingComplete
            | ConnectionEvent::LinkSuperVisionTimeoutChanged
            | ConnectionEvent::EncryptionChanged
            | ConnectionEvent::Other => Vec::new(),
        }
    }

    /// Takes an event of the controller now.
    pub fn handle_connection_event(&mut self, event: ConnectionEvent) -> (effects: Vec<Effect>)
        ensures
            exists|now: u64|
                {
                    &&& call_ensures(current_unix_time, (), now)
                    &&& final(self).model() == #[trigger] old(self).model().after(
                        Message::ConnectionEvent(event),
                        now,
                    )
                },
            effects@ == old(self).model().event_effects(event),
            old(self).well_formed() ==> final(self).well_formed(),
    {
        let now = current_unix_time();
        self.handle_connection_event_at(event, now)
    }

    /// Takes a message at a given time.
    pub fn update_at(&mut self, message: Message, now: u64) -> (effects: Vec<Effect>)
        requires
            old(self).model().can_take(message),
        ensures
            final(self).model() == old(self).model().after(message, now),
            effects@ == old(self).model().effects(message),
            old(self).well_formed() ==> final(self).well_formed(),
    {
        match message {
            Message::ConnectionEvent(event) => self.handle_connection_event_at(event, now),
            Message::Error(_) => Vec::new(),
            Message::PairedDevicesLoaded(list) => {
                self.paired_devices.merge(list);
                Vec::new()
            },
            Message::NewAvrcpSession => {
                let (session, effects) = RemoteControlSession::new();
                self.remote_control_session = Some(session);
                let r = pass_on(effects);
                assert(r@ =~= Seq::<Effect>::empty());
                r
            },
            Message::RemoteControlEvent(m) => match &mut self.remote_control_session {
                Some(session) => pass_on(session.update(m)),
                None => Vec::new(),
            },
            Message::Button(ButtonEvent::ModifyVolume(d)) => {
                let mut effects = vec![Effect::ModifyVolume(d)];
                if let Some(session) = &self.remote_control_session {
                    let mut rest = pass_on(session.notify_volume_change());
                    effects.append(&mut rest);
                }
                assert(effects@ =~= old(self).model().effects(message));
                effects
            },
            Message::Button(ButtonEvent::ReconnectTo(addr)) => {
                self.connection_state = ConnectionState::Connecting(addr, true);
                vec![Effect::Hci(HciCommand::CreateConnection { addr, allow_role_switch: true })]
            },
            Message::ServersStarted => {
                self.servers_started = true;
                Vec::new()
            },
        }
    }

    /// The devices to save when the player shuts down: those that have a key.
    pub fn shutdown(&self) -> (keys: Vec<PairedDevice>)
        requires
            self.well_formed(),
        ensures
            devices::is_valid_list(self.model().devices, keys@),
    {
        self.paired_devices.valid_devices()
    }

    /// The device that is shown: the one at the other end of the link, if it is known, or,
    /// without a link, the one that can be linked with again.
    pub fn shown_device(&self) -> (d: Option<&PairedDevice>)
        requires
            self.well_formed(),
        ensures
            d is None <==> match self.model().connection.peer() {
                Some(addr) => !self.model().devices.contains_key(addr.value),
                None => self.model().devices == Map::<u64, PairedDevice>::empty(),
            },
            d matches Some(d) ==> self.model().shows_device(*d),
    {
        match self.connection_state.addr() {
            Some(addr) => self.paired_devices.get(addr),
            None => self.paired_devices.longest_unlinked(),
        }
    }
}

impl RunningModel {
    /// Whether this is the device that is shown: the one at the other end of the link, if it is
    /// known, or, without a link, the one that went longest without.
    pub open spec fn shows_device(self, d: PairedDevice) -> bool {
        match self.connection.peer() {
            Some(addr) => self.devices.contains_key(addr.value) && self.devices[addr.value] == d,
            None => devices::is_longest_unlinked(self.devices, d),
        }
    }
}

/// What came of reading the devices that were saved.
#[derive(Debug, PartialEq, Eq)]
pub enum StoredDevices {
    Read(Vec<PairedDevice>),
    /// There is a file, and it makes no sense.
    Unreadable,
    /// Nothing was ever saved.
    Missing,
    Failed(String),
}

/// The message that reading the saved devices brings: none at all are as good as an empty list.
pub fn stored_devices_message(stored: StoredDevices) -> (message: Message)
    ensures
        match stored {
            StoredDevices::Read(list) => message == Message::PairedDevicesLoaded(list),
            StoredDevices::Missing => message matches Message::PairedDevicesLoaded(list)
                && list@ == Seq::<PairedDevice>::empty(),
            StoredDevices::Unreadable => message matches Message::Error(text) && text@
                == "Failed to parse paired devices"@,
            StoredDevices::Failed(text) => message == Message::Error(text),
        },
{
    match stored {
        StoredDevices::Read(list) => Message::PairedDevicesLoaded(list),
        StoredDevices::Missing => Message::PairedDevicesLoaded(Vec::new()),
        StoredDevices::Unreadable => Message::Error("Failed to parse paired devices".to_owned()),
        StoredDevices::Failed(text) => Message::Error(text),
    }
}

/// What the player shows that is kept elsewhere.
#[derive(Debug, PartialEq, Eq)]
pub struct Surroundings {
    /// The text of the address of the device that is shown.
    pub addr_text: String,
    /// Whether the volume is above zero.
    pub volume_above_zero: bool,
    /// Whether the volume is below one.
    pub volume_below_one: bool,
}

/// The two buttons beside the volume; one that does nothing cannot be pressed.
#[derive(Clone, Copy, Debug, PartialEq, Eq, Structural)]
pub struct VolumeControl {
    pub down: Option<ButtonEvent>,
    pub up: Option<ButtonEvent>,
}

/// The button that links with a device again; without servers it cannot be pressed.
#[derive(Debug, PartialEq, Eq)]
pub struct ReconnectButton {
    pub label: String,
    pub on_press: Option<ButtonEvent>,
}

/// What the player shows.
#[derive(Debug, PartialEq, Eq)]
pub struct RunningScreen {
    pub status: String,
    pub volume: Option<VolumeControl>,
    pub reconnect: Option<ReconnectButton>,
    /// The playing device; without a session, a notice in its place.
    pub remote_control: Result<RemoteControlScreen, String>,
}

/// The bit pattern of the single-precision number 0.05, by which a press raises the volume.
pub const VOLUME_STEP_UP: u32 = 0x3d4c_cccd;

/// The bit pattern of the single-precision number -0.05, by which a press lowers the volume.
pub const VOLUME_STEP_DOWN: u32 = 0xbd4c_cccd;

/// The word for the state of the link.
pub open spec fn link_word(state: ConnectionState) -> Seq<char> {
    match state {
        ConnectionState::Disconnected => "Disconnected"@,
        ConnectionState::Connecting(_, _) => "Connecting"@,
        ConnectionState::Connected(_) => "Connected"@,
    }
}

impl RunningModel {
    /// The line on the state of the link: the word for it, and the device, if it is known.
    pub open spec fn status_line(self, addr_text: String) -> Seq<char> {
        let word = link_word(self.connection);
        match self.connection.peer() {
            Some(addr) => if self.devices.contains_key(addr.value) {
                word + " to "@ + self.devices[addr.value].label(addr_text)@
            } else {
                word
            },
            None => word,
        }
    }

    /// Whether the screen is what the player shows.
    pub open spec fn is_shown_by(self, screen: RunningScreen, around: Surroundings) -> bool {
        &&& screen.status@ == self.status_line(around.addr_text)
        &&& screen.volume == (if self.connection is Connected {
            Some(
                VolumeControl {
                    down: if around.volume_above_zero {
                        Some(ButtonEvent::ModifyVolume(VOLUME_STEP_DOWN))
                    } else {
                        None
                    },
                    up: if around.volume_below_one {
                        Some(ButtonEvent::ModifyVolume(VOLUME_STEP_UP))
                    } else {
                        None
                    },
                },
            )
        } else {
            None
        })
        &&& screen.reconnect is Some <==> self.connection is Disconnected && self.devices
            != Map::<u64, PairedDevice>::empty()
        &&& screen.reconnect matches Some(button) ==> exists|d: PairedDevice|
            {
                &&& #[trigger] devices::is_longest_unlinked(self.devices, d)
                &&& button.label@ == "Reconnect to "@ + d.label(around.addr_text)@
                &&& button.on_press == (if self.servers_started {
                    Some(ButtonEvent::ReconnectTo(d.addr))
                } else {
                    None
                })
            }
        &&& match (self.session, screen.remote_control) {
            (Some(session), Ok(shown)) => shown.shows(session),
            (None, Err(notice)) => notice@ == "No remote control session"@,
            _ => false,
        }
    }
}

impl SubState for Running {
    type Message = Message;

    type Effect = Effect;

    type Surroundings = Surroundings;

    type Screen = RunningScreen;

    type Source = Source;

    open spec fn accepts(&self, message: Message) -> bool {
        self.model().can_take(message)
    }

    open spec fn can_show(&self) -> bool {
        self.well_formed()
    }

    fn update(&mut self, message: Message) -> (effects: Vec<Effect>)
        ensures
            exists|now: u64|
                {
                    &&& call_ensures(current_unix_time, (), now)
                    &&& final(self).model() == #[trigger] old(self).model().after(message, now)
                },
            effects@ == old(self).model().effects(message),
            old(self).well_formed() ==> final(self).well_formed(),
    {
        let now = current_unix_time();
        self.update_at(message, now)
    }

    fn view(&self, around: Surroundings) -> (screen: RunningScreen)
        ensures
            self.model().is_shown_by(screen, around),
    {
        let mut status = match self.connection_state {
            ConnectionState::Disconnected => "Disconnected".to_owned(),
            ConnectionState::Connecting(_, _) => "Connecting".to_owned(),
            ConnectionState::Connected(_) => "Connected".to_owned(),
        };
        if let Some(addr) = self.connection_state.addr() {
            if let Some(device) = self.paired_devices.get(addr) {
                status.append(" to ");
                status.append(device.name_or_addr(around.addr_text.clone()).as_str());
            }
        }
        let volume = match self.connection_state {
            ConnectionState::Connected(_) => Some(
                VolumeControl {
                    down: if around.volume_above_zero {
                        Some(ButtonEvent::ModifyVolume(VOLUME_STEP_DOWN))
                    } else {
                        None
                    },
                    up: if around.volume_below_one {
                        Some(ButtonEvent::ModifyVolume(VOLUME_STEP_UP))
                    } else {
                        None
                    },
                },
            ),
            _ => None,
        };
        let reconnect = match self.connection_state {
            ConnectionState::Disconnected => match self.paired_devices.longest_unlinked() {
                Some(device) => Some(
                    ReconnectButton {
                        label: "Reconnect to ".to_owned().concat(
                            device.name_or_addr(around.addr_text).as_str(),
                        ),
                        on_press: if self.servers_started {
                            Some(ButtonEvent::ReconnectTo(device.addr))
                        } else {
                            None
                        },
                    },
                ),
                None => None,
            },
            _ => None,
        };
        RunningScreen {
            status,
            volume,
            reconnect,
            remote_control: match &self.remote_control_session {
                Some(session) => Ok(session.view(())),
                None => Err("No remote control session".to_owned()),
            },
        }
    }

    fn subscription(&self) -> (sources: Vec<Source>)
        ensures
            sources@ == self.model().sources(),
    {
        let mut sources = vec![Source::ConnectionEvents, Source::L2capServers];
        if self.remote_control_session.is_some() {
            sources.push(Source::RemoteControl);
        }
        assert(sources@ =~= self.model().sources());
        sources
    }
}

}
