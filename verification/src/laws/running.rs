//! The player at work, call by call.

use crate::hci::{
    AuthenticationRequirements, ConnectionEvent, HciCommand, IoCapability, LinkKey, LinkType,
    OobDataPresence, PageScanRepetitionMode, RemoteAddr, Role, Status,
};
use crate::states::devices;
use crate::states::devices::PairedDevice;
use crate::states::laws;
use crate::states::remote_control;
use crate::states::remote_control::{RemoteControlScreen, RemoteControlSession};
use crate::states::running::{
    stored_devices_message, ButtonEvent, ConnectionState, Effect, Message, Running, RunningModel,
    RunningScreen, Source, StoredDevices, Surroundings,
};
use crate::states::SubState;
use crate::time::current_unix_time;
use vstd::prelude::*;

verus! {

/// The device at the other end of a link, and whether the link is being made from here.
pub proof fn link_tells_its_device(
    state: ConnectionState,
    addr: Option<RemoteAddr>,
    reconnecting: bool,
    default: ConnectionState,
)
    requires
        call_ensures(ConnectionState::addr, (state,), addr),
        call_ensures(ConnectionState::is_reconnecting, (state,), reconnecting),
        call_ensures(<ConnectionState as Default>::default, (), default),
    ensures
        match state {
            ConnectionState::Disconnected => addr is None && !reconnecting,
            ConnectionState::Connecting(a, from_here) => addr == Some(a) && reconnecting
                == from_here,
            ConnectionState::Connected(a) => addr == Some(a) && !reconnecting,
        },
        default is Disconnected,
{
}

/// The player begins without a link, devices, session or servers, and loads what it knew.
pub proof fn player_begins_with_nothing(r: (Running, Vec<Effect>))
    requires
        call_ensures(Running::new, (), r),
    ensures
        r.0.connection_state is Disconnected,
        r.0.paired_devices@ == Map::<u64, PairedDevice>::empty(),
        r.0.remote_control_session is None,
        !r.0.servers_started,
        r.1@ == seq![Effect::LoadPairedDevices],
{
}

/// A phone that asks for an audio link gets it whenever there is no other link, whatever else is
/// the case, and is asked for its name; nothing but the state of the link changes.
pub proof fn audio_link_is_accepted_without_another(
    player: &mut Running,
    addr: RemoteAddr,
    now: u64,
    effects: Vec<Effect>,
)
    requires
        old(player).connection_state is Disconnected,
        call_ensures(
            Running::handle_connection_event_at,
            (
                player,
                ConnectionEvent::ConnectionRequest { addr, link_type: LinkType::Acl },
                now,
            ),
            effects,
        ),
    ensures
        effects@ == seq![
            Effect::Hci(HciCommand::AcceptConnectionRequest { addr, role: Role::Slave }),
            Effect::Hci(HciCommand::RequestRemoteName { addr, mode: PageScanRepetitionMode::R1 }),
        ],
        final(player).connection_state == ConnectionState::Connecting(addr, false),
        final(player).paired_devices@ == old(player).paired_devices@,
        final(player).remote_control_session == old(player).remote_control_session,
        final(player).servers_started == old(player).servers_started,
{
}

/// The same of what the player is specified as, whatever its devices, its session and its servers.
pub proof fn model_accepts_an_audio_link(m: RunningModel, addr: RemoteAddr, now: u64)
    requires
        m.connection is Disconnected,
    ensures
        ({
            let event = ConnectionEvent::ConnectionRequest { addr, link_type: LinkType::Acl };
            let after = m.after(Message::ConnectionEvent(event), now);
            &&& m.event_effects(event) == seq![
                Effect::Hci(HciCommand::AcceptConnectionRequest { addr, role: Role::Slave }),
                Effect::Hci(
                    HciCommand::RequestRemoteName { addr, mode: PageScanRepetitionMode::R1 },
                ),
            ]
            &&& after.connection == ConnectionState::Connecting(addr, false)
            &&& after.devices == m.devices
            &&& after.session == m.session
            &&& after.servers_started == m.servers_started
        }),
{
}

/// Any other request for a link is turned away, and changes nothing.
pub proof fn other_links_are_turned_away(
    player: &mut Running,
    addr: RemoteAddr,
    link_type: LinkType,
    now: u64,
    effects: Vec<Effect>,
)
    requires
        !(old(player).connection_state is Disconnected) || !(link_type is Acl),
        call_ensures(
            Running::handle_connection_event_at,
            (player, ConnectionEvent::ConnectionRequest { addr, link_type }, now),
            effects,
        ),
    ensures
        effects@ == seq![
            Effect::Hci(
                HciCommand::RejectConnectionRequest {
                    addr,
                    reason: Status::ConnectionRejectedDueToLimitedResources,
                },
            ),
        ],
        final(player).connection_state == old(player).connection_state,
        final(player).paired_devices@ == old(player).paired_devices@,
        final(player).remote_control_session == old(player).remote_control_session,
        final(player).servers_started == old(player).servers_started,
{
}

/// A link that was made is the link, and one that failed is none; either way the time is noted of
/// its device and nothing else of any, and a link that was made from here is set up if there are
/// servers.
pub proof fn links_that_complete_are_noted(
    player: &mut Running,
    status: Status,
    addr: RemoteAddr,
    handle: u16,
    now: u64,
    effects: Vec<Effect>,
)
    requires
        call_ensures(
            Running::handle_connection_event_at,
            (player, ConnectionEvent::ConnectionComplete { status, addr, handle }, now),
            effects,
        ),
    ensures
        final(player).connection_state == (if status is Success {
            ConnectionState::Connected(addr)
        } else {
            ConnectionState::Disconnected
        }),
        final(player).paired_devices@ == old(player).paired_devices@.insert(
            addr.value,
            if old(player).paired_devices@.contains_key(addr.value) {
                PairedDevice {
                    addr: old(player).paired_devices@[addr.value].addr,
                    name: old(player).paired_devices@[addr.value].name,
                    link_key: old(player).paired_devices@[addr.value].link_key,
                    last_connected: now,
                }
            } else {
                PairedDevice {
                    addr,
                    name: None,
                    link_key: LinkKey { value: 0 },
                    last_connected: now,
                }
            },
        ),
        final(player).remote_control_session == old(player).remote_control_session,
        final(player).servers_started == old(player).servers_started,
        if (old(player).connection_state matches ConnectionState::Connecting(_, from_here)
            && from_here) && old(player).servers_started {
            effects@ == seq![Effect::SetUpLink { addr, handle }]
        } else {
            effects@.len() == 0
        },
{
}

/// The end of a link ends the link, and nothing else.
pub proof fn links_that_end_are_gone(player: &mut Running, now: u64, effects: Vec<Effect>)
    requires
        call_ensures(
            Running::handle_connection_event_at,
            (player, ConnectionEvent::DisconnectionComplete, now),
            effects,
        ),
    ensures
        effects@.len() == 0,
        final(player).connection_state is Disconnected,
        final(player).paired_devices@ == old(player).paired_devices@,
        final(player).remote_control_session == old(player).remote_control_session,
        final(player).servers_started == old(player).servers_started,
{
}

/// The name that a device tells is its name from then on; one that could not be had changes
/// nothing.
pub proof fn told_names_are_kept(
    player: &mut Running,
    addr: RemoteAddr,
    name: String,
    status: Status,
    now: u64,
    effects: Vec<Effect>,
)
    requires
        call_ensures(
            Running::handle_connection_event_at,
            (player, ConnectionEvent::RemoteNameRequestComplete { addr, name, status }, now),
            effects,
        ),
    ensures
        effects@.len() == 0,
        final(player).connection_state == old(player).connection_state,
        final(player).remote_control_session == old(player).remote_control_session,
        final(player).servers_started == old(player).servers_started,
        !(status is Success) ==> final(player).paired_devices@ == old(player).paired_devices@,
        status is Success ==> final(player).paired_devices@ == old(player).paired_devices@.insert(
            addr.value,
            if old(player).paired_devices@.contains_key(addr.value) {
                PairedDevice {
                    addr: old(player).paired_devices@[addr.value].addr,
                    name: Some(name),
                    link_key: old(player).paired_devices@[addr.value].link_key,
                    last_connected: old(player).paired_devices@[addr.value].last_connected,
                }
            } else {
                PairedDevice {
                    addr,
                    name: Some(name),
                    link_key: LinkKey { value: 0 },
                    last_connected: 0,
                }
            },
        ),
{
}

/// The key that a device leaves is its key from then on.
pub proof fn left_keys_are_kept(
    player: &mut Running,
    addr: RemoteAddr,
    key: LinkKey,
    now: u64,
    effects: Vec<Effect>,
)
    requires
        call_ensures(
            Running::handle_connection_event_at,
            (player, ConnectionEvent::LinkKeyNotification { addr, key }, now),
            effects,
        ),
    ensures
        effects@.len() == 0,
        final(player).connection_state == old(player).connection_state,
        final(player).remote_control_session == old(player).remote_control_session,
        final(player).servers_started == old(player).servers_started,
        final(player).paired_devices@ == old(player).paired_devices@.insert(
            addr.value,
            if old(player).paired_devices@.contains_key(addr.value) {
                PairedDevice {
                    addr: old(player).paired_devices@[addr.value].addr,
                    name: old(player).paired_devices@[addr.value].name,
                    link_key: key,
                    last_connected: old(player).paired_devices@[addr.value].last_connected,
                }
            } else {
                PairedDevice { addr, name: None, link_key: key, last_connected: 0 }
            },
        ),
{
}

/// Each question of a pairing gets its own answer, sent to the device that asked, and changes
/// nothing; what asks for nothing gets none.
pub proof fn pairing_questions_are_answered(
    player: &mut Running,
    event: ConnectionEvent,
    now: u64,
    effects: Vec<Effect>,
)
    requires
        !(event is ConnectionComplete) && !(event is DisconnectionComplete)
            && !(event is ConnectionRequest) && !(event is RemoteNameRequestComplete)
            && !(event is LinkKeyNotification),
        call_ensures(Running::handle_connection_event_at, (player, event, now), effects),
    ensures
        final(player).connection_state == old(player).connection_state,
        final(player).paired_devices@ == old(player).paired_devices@,
        final(player).remote_control_session == old(player).remote_control_session,
        final(player).servers_started == old(player).servers_started,
        match event {
            ConnectionEvent::PinCodeRequest { addr } => effects@ == seq![
                Effect::Hci(HciCommand::PinCodeRequestReply { addr, pin: "0000" }),
            ],
            ConnectionEvent::LinkKeyRequest { addr } => effects@ == seq![
                Effect::Hci(
                    if old(player).paired_devices@.contains_key(addr.value) {
                        HciCommand::LinkKeyPresent {
                            addr,
                            key: old(player).paired_devices@[addr.value].link_key,
                        }
                    } else {
                        HciCommand::LinkKeyNotPresent { addr }
                    },
                ),
            ],
            ConnectionEvent::IoCapabilityRequest { addr } => effects@ == seq![
                Effect::Hci(
                    HciCommand::IoCapabilityReply {
                        addr,
                        capability: IoCapability::NoInputNoOutput,
                        oob: OobDataPresence::NotPresent,
                        requirements: AuthenticationRequirements::DedicatedBondingProtected,
                    },
                ),
            ],
            ConnectionEvent::UserConfirmationRequest { addr } => effects@ == seq![
                Effect::Hci(HciCommand::UserConfirmationRequestAccept { addr }),
            ],
            _ => effects@.len() == 0,
        },
{
}

/// Taking an event is taking it at the time that the clock then tells.
pub proof fn events_are_taken_now(
    player: &mut Running,
    event: ConnectionEvent,
    effects: Vec<Effect>,
)
    requires
        call_ensures(Running::handle_connection_event, (player, event), effects),
    ensures
        exists|now: u64| #[trigger]
            call_ensures(current_unix_time, (), now) && forall|
                again: &mut Running,
                asked: Vec<Effect>,
            |
                *again == *old(player) && #[trigger] call_ensures(
                    Running::handle_connection_event_at,
                    (again, event, now),
                    asked,
                ) ==> {
                    &&& asked@ == effects@
                    &&& (*final(again)).connection_state == final(player).connection_state
                    &&& (*final(again)).paired_devices@ == final(player).paired_devices@
                    &&& (*final(again)).remote_control_session == final(
                        player).remote_control_session
                    &&& (*final(again)).servers_started == final(player).servers_started
                },
{
    let now = choose|now: u64|
        call_ensures(current_unix_time, (), now) && final(player).model()
            == #[trigger] old(player).model().after(Message::ConnectionEvent(event), now);
    assert(call_ensures(current_unix_time, (), now));
}

/// A message with an event of the controller does what the event does.
pub proof fn event_messages_are_events(
    player: &mut Running,
    again: &mut Running,
    event: ConnectionEvent,
    now: u64,
    effects: Vec<Effect>,
    asked: Vec<Effect>,
)
    requires
        *old(again) == *old(player),
        call_ensures(
            Running::update_at,
            (player, Message::ConnectionEvent(event), now),
            effects,
        ),
        call_ensures(Running::handle_connection_event_at, (again, event, now), asked),
    ensures
        asked@ == effects@,
        final(again).connection_state == final(player).connection_state,
        final(again).paired_devices@ == final(player).paired_devices@,
        final(again).remote_control_session == final(player).remote_control_session,
        final(again).servers_started == final(player).servers_started,
{
}

/// Devices that were saved are filed in turn, each only where its address is free, and nothing
/// else changes.
pub proof fn saved_devices_are_filed(
    player: &mut Running,
    list: Vec<PairedDevice>,
    now: u64,
    effects: Vec<Effect>,
    addr: RemoteAddr,
)
    requires
        call_ensures(
            Running::update_at,
            (player, Message::PairedDevicesLoaded(list), now),
            effects,
        ),
    ensures
        effects@.len() == 0,
        final(player).connection_state == old(player).connection_state,
        final(player).remote_control_session == old(player).remote_control_session,
        final(player).servers_started == old(player).servers_started,
        old(player).paired_devices@.contains_key(addr.value) ==> {
            &&& final(player).paired_devices@.contains_key(addr.value)
            &&& final(player).paired_devices@[addr.value] == old(player).paired_devices@[addr.value]
        },
        forall|i: int|
            !old(player).paired_devices@.contains_key(addr.value) && 0 <= i < list@.len() && (
            #[trigger] list@[i]).addr == addr && (forall|j: int|
                0 <= j < i ==> (#[trigger] list@[j]).addr != addr) ==> {
                &&& final(player).paired_devices@.contains_key(addr.value)
                &&& final(player).paired_devices@[addr.value] == list@[i]
            },
        !old(player).paired_devices@.contains_key(addr.value) && (forall|i: int|
            0 <= i < list@.len() ==> (#[trigger] list@[i]).addr != addr) ==> !final(
            player).paired_devices@.contains_key(addr.value),
{
    devices::merging_keeps_the_known(old(player).paired_devices@, list@, addr.value);
    crate::laws::devices::first_of_an_address(list@, addr);
}

/// A new session takes the place of any other, and begins with nothing reported.
pub proof fn new_sessions_begin_afresh(player: &mut Running, now: u64, effects: Vec<Effect>)
    requires
        call_ensures(Running::update_at, (player, Message::NewAvrcpSession, now), effects),
    ensures
        effects@.len() == 0,
        final(player).remote_control_session == Some(
            RemoteControlSession {
                media_controls: false,
                media_commands: false,
                info: None,
                position: None,
                status: remote_control::PlaybackStatus::Stopped,
            },
        ),
        final(player).connection_state == old(player).connection_state,
        final(player).paired_devices@ == old(player).paired_devices@,
        final(player).servers_started == old(player).servers_started,
{
}

/// What the remote control is told goes to the session, if there is one, and what the session asks
/// for is passed on as it is; nothing else changes.
pub proof fn remote_control_is_passed_on_to(
    player: &mut Running,
    message: remote_control::Message,
    now: u64,
    effects: Vec<Effect>,
    session: &mut RemoteControlSession,
    asked: Vec<remote_control::Effect>,
)
    requires
        old(player).remote_control_session is Some ==> {
            &&& message matches remote_control::Message::MediaControlsInitialized(up) ==> up ==> old(
                player).remote_control_session->0.media_commands
            &&& *old(session) == old(player).remote_control_session->0
            &&& call_ensures(
                <RemoteControlSession as SubState>::update,
                (session, message),
                asked,
            )
        },
        call_ensures(
            Running::update_at,
            (player, Message::RemoteControlEvent(message), now),
            effects,
        ),
    ensures
        final(player).connection_state == old(player).connection_state,
        final(player).paired_devices@ == old(player).paired_devices@,
        final(player).servers_started == old(player).servers_started,
        old(player).remote_control_session is None ==> {
            &&& final(player).remote_control_session is None
            &&& effects@.len() == 0
        },
        old(player).remote_control_session is Some ==> {
            &&& final(player).remote_control_session == Some(*final(session))
            &&& effects@.len() == asked@.len()
            &&& forall|i: int|
                0 <= i < asked@.len() ==> #[trigger] effects@[i] == Effect::RemoteControl(asked@[i])
        },
{
}

/// A press on the volume changes it by that much, and the playing device is told wherever there is
/// a channel to it; nothing in the player changes.
pub proof fn volume_presses_change_the_volume(
    player: &mut Running,
    change: u32,
    now: u64,
    effects: Vec<Effect>,
)
    requires
        call_ensures(
            Running::update_at,
            (player, Message::Button(ButtonEvent::ModifyVolume(change)), now),
            effects,
        ),
    ensures
        final(player).connection_state == old(player).connection_state,
        final(player).paired_devices@ == old(player).paired_devices@,
        final(player).remote_control_session == old(player).remote_control_session,
        final(player).servers_started == old(player).servers_started,
        if old(player).remote_control_session matches Some(session) && session.media_commands {
            effects@ == seq![
                Effect::ModifyVolume(change),
                Effect::RemoteControl(
                    remote_control::Effect::Send(
                        remote_control::RemoteControlCommand::VolumeChanged,
                    ),
                ),
            ]
        } else {
            effects@ == seq![Effect::ModifyVolume(change)]
        },
{
    if let Some(session) = old(player).remote_control_session {
        if session.media_commands {
            assert(effects@ =~= seq![
                Effect::ModifyVolume(change),
                Effect::RemoteControl(
                    remote_control::Effect::Send(
                        remote_control::RemoteControlCommand::VolumeChanged,
                    ),
                ),
            ]);
        } else {
            assert(effects@ =~= seq![Effect::ModifyVolume(change)]);
        }
    } else {
        assert(effects@ =~= seq![Effect::ModifyVolume(change)]);
    }
}

/// A press that asks to link again makes a link with that device, from here, and changes nothing
/// but the state of the link.
pub proof fn reconnect_presses_make_a_link(
    player: &mut Running,
    addr: RemoteAddr,
    now: u64,
    effects: Vec<Effect>,
)
    requires
        call_ensures(
            Running::update_at,
            (player, Message::Button(ButtonEvent::ReconnectTo(addr)), now),
            effects,
        ),
    ensures
        effects@ == seq![
            Effect::Hci(HciCommand::CreateConnection { addr, allow_role_switch: true }),
        ],
        final(player).connection_state == ConnectionState::Connecting(addr, true),
        final(player).paired_devices@ == old(player).paired_devices@,
        final(player).remote_control_session == old(player).remote_control_session,
        final(player).servers_started == old(player).servers_started,
{
}

/// Servers that started are there from then on; an error changes nothing.
pub proof fn servers_that_started_are_there(
    player: &mut Running,
    message: Message,
    now: u64,
    effects: Vec<Effect>,
)
    requires
        message is ServersStarted || message is Error,
        call_ensures(Running::update_at, (player, message, now), effects),
    ensures
        effects@.len() == 0,
        final(player).connection_state == old(player).connection_state,
        final(player).paired_devices@ == old(player).paired_devices@,
        final(player).remote_control_session == old(player).remote_control_session,
        final(player).servers_started == (message is ServersStarted || old(player).servers_started),
{
}

/// Taking a message is taking it at the time that the clock then tells.
pub proof fn messages_are_taken_now(player: &mut Running, message: Message, effects: Vec<Effect>)
    requires
        old(player).model().can_take(message),
        call_ensures(<Running as SubState>::update, (player, message), effects),
    ensures
        exists|now: u64| #[trigger]
            call_ensures(current_unix_time, (), now) && forall|
                again: &mut Running,
                asked: Vec<Effect>,
            |
                *again == *old(player) && #[trigger] call_ensures(
                    Running::update_at,
                    (again, message, now),
                    asked,
                ) ==> {
                    &&& asked@ == effects@
                    &&& (*final(again)).connection_state == final(player).connection_state
                    &&& (*final(again)).paired_devices@ == final(player).paired_devices@
                    &&& (*final(again)).remote_control_session == final(
                        player).remote_control_session
                    &&& (*final(again)).servers_started == final(player).servers_started
                },
{
    let now = choose|now: u64|
        call_ensures(current_unix_time, (), now) && final(player).model()
            == #[trigger] old(player).model().after(message, now);
    assert(call_ensures(current_unix_time, (), now));
}

/// A message can come unless it says that the media controls are up where their keys would have no
/// channel.
pub proof fn messages_can_come(m: RunningModel, message: Message)
    ensures
        m.can_take(message) <==> !(message matches Message::RemoteControlEvent(
            remote_control::Message::MediaControlsInitialized(up),
        ) && up && (m.session matches Some(session) && !session.media_commands)),
{
}

/// What the player is specified as is what it holds.
pub proof fn player_is_what_it_holds(player: Running)
    ensures
        player.model().connection == player.connection_state,
        player.model().devices == player.paired_devices@,
        player.model().session == player.remote_control_session,
        player.model().servers_started == player.servers_started,
        player.well_formed() <==> {
            &&& forall|k: u64| #[trigger]
                player.paired_devices@.contains_key(k) ==> player.paired_devices@[k].addr.value == k
            &&& player.remote_control_session matches Some(session) ==> session.media_controls
                ==> session.media_commands
        },
{
}

/// A device that left a key other than zero, and since then no other, is among those that are
/// saved at the shutdown, with that key, whatever else came.
pub proof fn paired_device_is_saved(
    m: RunningModel,
    addr: RemoteAddr,
    key: LinkKey,
    now: u64,
    script: Seq<(Message, u64)>,
    player: Running,
    saved: Vec<PairedDevice>,
)
    requires
        m.well_formed(),
        key.value != 0,
        laws::leaves_key_alone(script, addr),
        player.well_formed(),
        player.model() == laws::run(
            m.after(
                Message::ConnectionEvent(ConnectionEvent::LinkKeyNotification { addr, key }),
                now,
            ),
            script,
        ),
        call_ensures(Running::shutdown, (&player,), saved),
    ensures
        exists|i: int|
            0 <= i < saved@.len() && (#[trigger] saved@[i]).addr == addr && saved@[i].link_key
                == key,
{
    let left = m.after(
        Message::ConnectionEvent(ConnectionEvent::LinkKeyNotification { addr, key }),
        now,
    );
    laws::key_stays(left, script, addr);
    let d = player.paired_devices@[addr.value];
    assert(saved@.contains(d));
    let i = saved@.index_of(d);
    assert(saved@[i] == d);
}

/// What is saved at the shutdown is every device with a key other than zero, as it is known, by
/// rising address, and nothing else.
pub proof fn shutdown_saves_devices_with_a_key(
    player: Running,
    saved: Vec<PairedDevice>,
    k: u64,
)
    requires
        player.well_formed(),
        call_ensures(Running::shutdown, (&player,), saved),
    ensures
        player.paired_devices@.contains_key(k) && player.paired_devices@[k].link_key.value != 0
            ==> saved@.contains(player.paired_devices@[k]),
        forall|i: int|
            0 <= i < saved@.len() ==> {
                &&& (#[trigger] saved@[i]).link_key.value != 0
                &&& player.paired_devices@.contains_key(saved@[i].addr.value)
                &&& player.paired_devices@[saved@[i].addr.value] == saved@[i]
            },
        forall|i: int, j: int|
            0 <= i < j < saved@.len() ==> (#[trigger] saved@[i]).addr.value < (
            #[trigger] saved@[j]).addr.value,
{
    assert(forall|i: int| 0 <= i < saved@.len() ==> saved@.contains(#[trigger] saved@[i]));
}

/// The device that is shown is the one at the other end of the link, if it is known, or without a
/// link the one that was longest without.
pub proof fn device_of_the_link_is_shown(
    player: Running,
    shown: Option<&PairedDevice>,
    k: u64,
)
    requires
        player.well_formed(),
        call_ensures(Running::shown_device, (&player,), shown),
    ensures
        match player.connection_state {
            ConnectionState::Connecting(addr, _) | ConnectionState::Connected(addr) => shown
                == (if player.paired_devices@.contains_key(addr.value) {
                Some(&player.paired_devices@[addr.value])
            } else {
                None
            }),
            ConnectionState::Disconnected => {
                &&& player.paired_devices@.contains_key(k) ==> shown is Some
                &&& shown matches Some(d) ==> {
                    &&& player.paired_devices@.contains_key(d.addr.value)
                    &&& player.paired_devices@[d.addr.value] == *d
                    &&& player.paired_devices@.contains_key(k) ==> {
                        &&& d.last_connected <= player.paired_devices@[k].last_connected
                        &&& d.last_connected == player.paired_devices@[k].last_connected
                            ==> d.addr.value <= k
                    }
                }
            },
        },
{
}

/// What came of reading the saved devices: a list is loaded as it is, a missing file is an empty
/// list, and all else is an error.
pub proof fn reading_the_devices_is_told(stored: StoredDevices, message: Message)
    requires
        call_ensures(stored_devices_message, (stored,), message),
    ensures
        match stored {
            StoredDevices::Read(list) => message == Message::PairedDevicesLoaded(list),
            StoredDevices::Missing => message matches Message::PairedDevicesLoaded(list)
                && list@.len() == 0,
            StoredDevices::Unreadable => message matches Message::Error(text) && text@
                == "Failed to parse paired devices"@,
            StoredDevices::Failed(error) => message == Message::Error(error),
        },
{
}

/// The line on the link names its state and, with a link to a known device, the device: by its
/// name, or by its address while it has none.
pub proof fn state_of_the_link_is_shown(
    player: Running,
    around: Surroundings,
    screen: RunningScreen,
)
    requires
        player.well_formed(),
        call_ensures(<Running as SubState>::view, (&player, around), screen),
    ensures
        match player.connection_state {
            ConnectionState::Disconnected => screen.status@ == "Disconnected"@,
            ConnectionState::Connecting(addr, _) => screen.status@ == (
            if player.paired_devices@.contains_key(addr.value) {
                "Connecting"@ + " to "@ + (match player.paired_devices@[addr.value].name {
                    Some(name) => name@,
                    None => around.addr_text@,
                })
            } else {
                "Connecting"@
            }),
            ConnectionState::Connected(addr) => screen.status@ == (
            if player.paired_devices@.contains_key(addr.value) {
                "Connected"@ + " to "@ + (match player.paired_devices@[addr.value].name {
                    Some(name) => name@,
                    None => around.addr_text@,
                })
            } else {
                "Connected"@
            }),
        },
{
}

/// The volume can be changed while there is a link, down while it is above zero and up while it is
/// below one, by a twentieth.
pub proof fn volume_is_shown_with_a_link(
    player: Running,
    around: Surroundings,
    screen: RunningScreen,
)
    requires
        player.well_formed(),
        call_ensures(<Running as SubState>::view, (&player, around), screen),
    ensures
        screen.volume is Some <==> player.connection_state is Connected,
        screen.volume matches Some(control) ==> {
            &&& control.down == (if around.volume_above_zero {
                Some(ButtonEvent::ModifyVolume(3175926989))
            } else {
                None
            })
            &&& control.up == (if around.volume_below_one {
                Some(ButtonEvent::ModifyVolume(1028443341))
            } else {
                None
            })
        },
{
}

/// Without a link, and with any known device, the one that was longest without a link is offered:
/// by its name, or by its address while it has none, to be linked with where there are servers.
pub proof fn reconnecting_is_offered_without_a_link(
    player: Running,
    around: Surroundings,
    screen: RunningScreen,
    shown: Option<&PairedDevice>,
)
    requires
        player.well_formed(),
        call_ensures(<Running as SubState>::view, (&player, around), screen),
        call_ensures(Running::shown_device, (&player,), shown),
    ensures
        !(player.connection_state is Disconnected) ==> screen.reconnect is None,
        player.connection_state is Disconnected ==> match shown {
            None => screen.reconnect is None,
            Some(device) => {
                &&& screen.reconnect matches Some(button)
                &&& button.label@ == "Reconnect to "@ + (match device.name {
                    Some(name) => name@,
                    None => around.addr_text@,
                })
                &&& button.on_press == (if player.servers_started {
                    Some(ButtonEvent::ReconnectTo(device.addr))
                } else {
                    None
                })
            },
        },
{
}

/// The playing device is shown as its session shows it, and without a session there is a notice.
pub proof fn session_is_shown(
    player: Running,
    around: Surroundings,
    screen: RunningScreen,
    session: RemoteControlSession,
    shown: RemoteControlScreen,
)
    requires
        player.well_formed(),
        call_ensures(<Running as SubState>::view, (&player, around), screen),
        call_ensures(<RemoteControlSession as SubState>::view, (&session, ()), shown),
    ensures
        player.remote_control_session is None ==> (screen.remote_control matches Err(notice)
            && notice@ == "No remote control session"@),
        player.remote_control_session == Some(session) ==> {
            &&& screen.remote_control matches Ok(of_session)
            &&& of_session.artist@ == shown.artist@
            &&& of_session.title@ == shown.title@
            &&& of_session.current_time@ == shown.current_time@
            &&& of_session.end_time@ == shown.end_time@
            &&& of_session.progress == shown.progress
            &&& of_session.controls@ == shown.controls@
        },
{
}

/// The player listens to the controller and the servers, and to the session if there is one.
pub proof fn player_listens(player: Running, sources: Vec<Source>)
    requires
        call_ensures(<Running as SubState>::subscription, (&player,), sources),
    ensures
        sources@ == (if player.remote_control_session is Some {
            seq![Source::ConnectionEvents, Source::L2capServers, Source::RemoteControl]
        } else {
            seq![Source::ConnectionEvents, Source::L2capServers]
        }),
{
    if player.remote_control_session is Some {
        assert(sources@ =~= seq![
            Source::ConnectionEvents,
            Source::L2capServers,
            Source::RemoteControl,
        ]);
    } else {
        assert(sources@ =~= seq![Source::ConnectionEvents, Source::L2capServers]);
    }
}

}
