use bluefang_player::hci::{
    AuthenticationRequirements, ConnectionEvent, HciCommand, IoCapability, LinkKey, LinkType,
    OobDataPresence, PageScanRepetitionMode, RemoteAddr, Role, Status,
};
use bluefang_player::states::devices::PairedDevice;
use bluefang_player::states::remote_control;
use bluefang_player::states::running::{
    stored_devices_message, ButtonEvent, ConnectionState, Effect, Message, Running, Source,
    StoredDevices, Surroundings, VolumeControl, VOLUME_STEP_DOWN, VOLUME_STEP_UP,
};
use bluefang_player::states::SubState;

const A: RemoteAddr = RemoteAddr { value: 0xa };
const B: RemoteAddr = RemoteAddr { value: 0xb };
const KEY: LinkKey = LinkKey { value: 0x1234 };

fn fresh() -> Running {
    Running::new().0
}

fn around(addr_text: &str) -> Surroundings {
    Surroundings {
        addr_text: addr_text.to_string(),
        volume_above_zero: true,
        volume_below_one: true,
    }
}

fn request(addr: RemoteAddr) -> ConnectionEvent {
    ConnectionEvent::ConnectionRequest { addr, link_type: LinkType::Acl }
}

fn complete(addr: RemoteAddr, status: Status) -> ConnectionEvent {
    ConnectionEvent::ConnectionComplete { status, addr, handle: 42 }
}

fn name(addr: RemoteAddr, name: &str) -> ConnectionEvent {
    ConnectionEvent::RemoteNameRequestComplete {
        addr,
        name: name.to_string(),
        status: Status::Success,
    }
}

fn device(addr: RemoteAddr, key: u128, last_connected: u64) -> PairedDevice {
    PairedDevice { addr, name: None, link_key: LinkKey { value: key }, last_connected }
}

#[test]
fn a_new_player_loads_its_devices() {
    let (player, effects) = Running::new();
    assert_eq!(effects, vec![Effect::LoadPairedDevices]);
    assert_eq!(player.connection_state, ConnectionState::Disconnected);
    assert!(player.shown_device().is_none());
    assert!(player.shutdown().is_empty());
}

#[test]
fn a_link_is_made() {
    let mut player = fresh();
    assert_eq!(
        player.handle_connection_event_at(request(A), 1),
        vec![
            Effect::Hci(HciCommand::AcceptConnectionRequest { addr: A, role: Role::Slave }),
            Effect::Hci(HciCommand::RequestRemoteName {
                addr: A,
                mode: PageScanRepetitionMode::R1
            }),
        ]
    );
    assert_eq!(player.connection_state, ConnectionState::Connecting(A, false));
    assert!(!player.connection_state.is_reconnecting());
    assert_eq!(player.handle_connection_event_at(complete(A, Status::Success), 77), vec![]);
    assert_eq!(player.connection_state, ConnectionState::Connected(A));
    assert_eq!(player.paired_devices.get(A).unwrap().last_connected, 77);
    player.handle_connection_event_at(ConnectionEvent::DisconnectionComplete, 80);
    assert_eq!(player.connection_state, ConnectionState::Disconnected);
    assert_eq!(player.connection_state.addr(), None);
}

#[test]
fn a_failed_link_is_none() {
    let mut player = fresh();
    player.handle_connection_event_at(request(A), 1);
    player.handle_connection_event_at(complete(A, Status::Other(4)), 5);
    assert_eq!(player.connection_state, ConnectionState::Disconnected);
    assert_eq!(player.paired_devices.get(A).unwrap().last_connected, 5);
}

#[test]
fn a_second_link_is_turned_away() {
    let reject = vec![Effect::Hci(HciCommand::RejectConnectionRequest {
        addr: B,
        reason: Status::ConnectionRejectedDueToLimitedResources,
    })];
    let mut player = fresh();
    player.handle_connection_event_at(request(A), 1);
    assert_eq!(player.handle_connection_event_at(request(B), 2), reject);
    assert_eq!(player.connection_state, ConnectionState::Connecting(A, false));
    player.handle_connection_event_at(complete(A, Status::Success), 3);
    assert_eq!(player.handle_connection_event_at(request(B), 4), reject);
    assert_eq!(player.connection_state, ConnectionState::Connected(A));
    let mut player = fresh();
    let voice = ConnectionEvent::ConnectionRequest { addr: B, link_type: LinkType::Other(0) };
    assert_eq!(player.handle_connection_event_at(voice, 5), reject);
    assert_eq!(player.connection_state, ConnectionState::Disconnected);
}

#[test]
fn pairing_requests_are_answered() {
    let mut player = fresh();
    assert_eq!(
        player.handle_connection_event(ConnectionEvent::PinCodeRequest { addr: A }),
        vec![Effect::Hci(HciCommand::PinCodeRequestReply { addr: A, pin: "0000" })]
    );
    assert_eq!(
        player.handle_connection_event(ConnectionEvent::IoCapabilityRequest { addr: A }),
        vec![Effect::Hci(HciCommand::IoCapabilityReply {
            addr: A,
            capability: IoCapability::NoInputNoOutput,
            oob: OobDataPresence::NotPresent,
            requirements: AuthenticationRequirements::DedicatedBondingProtected,
        })]
    );
    assert_eq!(
        player.handle_connection_event(ConnectionEvent::UserConfirmationRequest { addr: A }),
        vec![Effect::Hci(HciCommand::UserConfirmationRequestAccept { addr: A })]
    );
    for event in [
        ConnectionEvent::IoCapabilityResponse,
        ConnectionEvent::SimplePairingComplete,
        ConnectionEvent::LinkSuperVisionTimeoutChanged,
        ConnectionEvent::EncryptionChanged,
        ConnectionEvent::Other,
    ] {
        assert_eq!(player.handle_connection_event(event), vec![]);
    }
}

#[test]
fn a_link_key_is_given_back() {
    let mut player = fresh();
    let ask = || ConnectionEvent::LinkKeyRequest { addr: A };
    assert_eq!(
        player.handle_connection_event_at(ask(), 1),
        vec![Effect::Hci(HciCommand::LinkKeyNotPresent { addr: A })]
    );
    player.handle_connection_event_at(
        ConnectionEvent::LinkKeyNotification { addr: A, key: KEY },
        2,
    );
    player.handle_connection_event_at(name(A, "phone"), 3);
    player.handle_connection_event_at(complete(A, Status::Success), 4);
    player.update_at(Message::PairedDevicesLoaded(vec![device(A, 99, 0)]), 5);
    assert_eq!(
        player.handle_connection_event_at(ask(), 6),
        vec![Effect::Hci(HciCommand::LinkKeyPresent { addr: A, key: KEY })]
    );
}

#[test]
fn a_device_without_a_key_answers_with_none() {
    let mut player = fresh();
    player.handle_connection_event_at(name(A, "phone"), 1);
    assert_eq!(
        player.handle_connection_event_at(ConnectionEvent::LinkKeyRequest { addr: A }, 2),
        vec![Effect::Hci(HciCommand::LinkKeyPresent { addr: A, key: LinkKey::default() })]
    );
}

#[test]
fn a_failed_name_request_changes_nothing() {
    let mut player = fresh();
    let failed = ConnectionEvent::RemoteNameRequestComplete {
        addr: A,
        name: "phone".to_string(),
        status: Status::Other(1),
    };
    assert_eq!(player.handle_connection_event_at(failed, 1), vec![]);
    assert!(player.paired_devices.get(A).is_none());
    player.handle_connection_event_at(name(A, "phone"), 2);
    assert_eq!(player.paired_devices.get(A).unwrap().name, Some("phone".to_string()));
}

#[test]
fn loading_keeps_what_is_known_and_takes_the_first() {
    let mut player = fresh();
    player.handle_connection_event_at(complete(A, Status::Success), 50);
    player.update_at(
        Message::PairedDevicesLoaded(vec![device(A, 1, 1), device(B, 2, 2), device(B, 3, 3)]),
        60,
    );
    assert_eq!(player.paired_devices.get(A), Some(&device(A, 0, 50)));
    assert_eq!(player.paired_devices.get(B), Some(&device(B, 2, 2)));
}

#[test]
fn only_devices_with_a_key_are_saved_and_come_back() {
    let mut player = fresh();
    player.update_at(
        Message::PairedDevicesLoaded(vec![
            device(RemoteAddr { value: 9 }, 1, 10),
            device(RemoteAddr { value: 3 }, 0, 11),
            device(RemoteAddr { value: 5 }, 2, 12),
        ]),
        0,
    );
    let saved = player.shutdown();
    assert_eq!(
        saved,
        vec![device(RemoteAddr { value: 5 }, 2, 12), device(RemoteAddr { value: 9 }, 1, 10)]
    );
    let mut next = fresh();
    next.update_at(Message::PairedDevicesLoaded(saved.clone()), 0);
    assert_eq!(next.shutdown(), saved);
    assert!(next.paired_devices.get(RemoteAddr { value: 3 }).is_none());
}

#[test]
fn devices() {
    let d = PairedDevice::new(A);
    assert_eq!(d, device(A, 0, 0));
    assert!(!d.valid());
    assert!(device(A, 1, 0).valid());
    assert_eq!(d.name_or_addr("0A".to_string()), "0A");
    let named = PairedDevice { name: Some("phone".to_string()), ..d };
    assert_eq!(named.name_or_addr("0A".to_string()), "phone");
}

#[test]
fn stored_devices() {
    let list = vec![device(A, 1, 1)];
    assert_eq!(
        stored_devices_message(StoredDevices::Read(list.clone())),
        Message::PairedDevicesLoaded(list)
    );
    assert_eq!(
        stored_devices_message(StoredDevices::Missing),
        Message::PairedDevicesLoaded(vec![])
    );
    assert_eq!(
        stored_devices_message(StoredDevices::Unreadable),
        Message::Error("Failed to parse paired devices".to_string())
    );
    assert_eq!(
        stored_devices_message(StoredDevices::Failed("denied".to_string())),
        Message::Error("denied".to_string())
    );
}

#[test]
fn reconnecting_sets_up_the_link() {
    let mut player = fresh();
    assert_eq!(
        player.update_at(Message::Button(ButtonEvent::ReconnectTo(A)), 1),
        vec![Effect::Hci(HciCommand::CreateConnection { addr: A, allow_role_switch: true })]
    );
    assert!(player.connection_state.is_reconnecting());
    assert_eq!(player.handle_connection_event_at(complete(A, Status::Success), 2), vec![]);
    player.update_at(Message::ServersStarted, 3);
    player.update_at(Message::Button(ButtonEvent::ReconnectTo(A)), 4);
    assert_eq!(
        player.handle_connection_event_at(complete(A, Status::Success), 5),
        vec![Effect::SetUpLink { addr: A, handle: 42 }]
    );
    assert_eq!(player.connection_state, ConnectionState::Connected(A));
}

#[test]
fn the_clock_is_recorded() {
    let mut player = fresh();
    player.update(Message::ConnectionEvent(complete(A, Status::Success)));
    assert!(player.paired_devices.get(A).unwrap().last_connected > 1_500_000_000_000);
}

#[test]
fn errors_change_nothing() {
    let mut player = fresh();
    assert_eq!(player.update(Message::Error("oops".to_string())), vec![]);
    assert_eq!(player.connection_state, ConnectionState::Disconnected);
}

#[test]
fn the_remote_control_is_passed_on_to() {
    let mut player = fresh();
    let channel = || Message::RemoteControlEvent(remote_control::Message::MediaCommandChannel);
    assert_eq!(player.update(channel()), vec![]);
    assert_eq!(player.update(Message::NewAvrcpSession), vec![]);
    assert_eq!(
        player.update(channel()),
        vec![Effect::RemoteControl(remote_control::Effect::InitializeMediaControls)]
    );
    assert_eq!(
        player.update(Message::Button(ButtonEvent::ModifyVolume(VOLUME_STEP_UP))),
        vec![
            Effect::ModifyVolume(VOLUME_STEP_UP),
            Effect::RemoteControl(remote_control::Effect::Send(
                remote_control::RemoteControlCommand::VolumeChanged
            )),
        ]
    );
    player.update(Message::NewAvrcpSession);
    assert_eq!(
        player.update(Message::Button(ButtonEvent::ModifyVolume(VOLUME_STEP_DOWN))),
        vec![Effect::ModifyVolume(VOLUME_STEP_DOWN)]
    );
}

#[test]
fn volume_steps_are_a_twentieth() {
    assert_eq!(f32::from_bits(VOLUME_STEP_UP), 0.05f32);
    assert_eq!(f32::from_bits(VOLUME_STEP_DOWN), -0.05f32);
}

#[test]
fn the_screen_without_a_link() {
    let mut player = fresh();
    let screen = player.view(around(""));
    assert_eq!(screen.status, "Disconnected");
    assert_eq!(screen.volume, None);
    assert_eq!(screen.reconnect, None);
    assert_eq!(screen.remote_control, Err("No remote control session".to_string()));
    player.update_at(
        Message::PairedDevicesLoaded(vec![device(B, 1, 5), device(A, 1, 5), device(
            RemoteAddr { value: 1 },
            1,
            6,
        )]),
        0,
    );
    assert_eq!(player.shown_device(), Some(&device(A, 1, 5)));
    let button = player.view(around("0A")).reconnect.unwrap();
    assert_eq!(button.label, "Reconnect to 0A");
    assert_eq!(button.on_press, None);
    player.update_at(Message::ServersStarted, 0);
    player.handle_connection_event_at(name(A, "phone"), 0);
    let button = player.view(around("0A")).reconnect.unwrap();
    assert_eq!(button.label, "Reconnect to phone");
    assert_eq!(button.on_press, Some(ButtonEvent::ReconnectTo(A)));
}

#[test]
fn the_screen_with_a_link() {
    let mut player = fresh();
    player.handle_connection_event_at(request(A), 1);
    assert_eq!(player.view(around("0A")).status, "Connecting");
    player.handle_connection_event_at(name(A, "phone"), 2);
    assert_eq!(player.view(around("0A")).status, "Connecting to phone");
    player.handle_connection_event_at(complete(A, Status::Success), 3);
    player.update_at(Message::NewAvrcpSession, 4);
    let screen = player.view(around("0A"));
    assert_eq!(screen.status, "Connected to phone");
    assert_eq!(screen.reconnect, None);
    assert_eq!(
        screen.volume,
        Some(VolumeControl {
            down: Some(ButtonEvent::ModifyVolume(VOLUME_STEP_DOWN)),
            up: Some(ButtonEvent::ModifyVolume(VOLUME_STEP_UP)),
        })
    );
    assert_eq!(screen.remote_control.unwrap().title, "No Track Selected");
    let screen = player.view(Surroundings {
        addr_text: String::new(),
        volume_above_zero: false,
        volume_below_one: false,
    });
    assert_eq!(screen.volume, Some(VolumeControl { down: None, up: None }));
}

#[test]
fn an_unnamed_device_is_shown_by_its_address() {
    let mut player = fresh();
    player.handle_connection_event_at(complete(B, Status::Success), 3);
    assert_eq!(player.shown_device(), Some(&device(B, 0, 3)));
    assert_eq!(player.view(around("00:0B")).status, "Connected to 00:0B");
}

#[test]
fn sources() {
    let mut player = fresh();
    assert_eq!(player.subscription(), vec![Source::ConnectionEvents, Source::L2capServers]);
    player.update(Message::NewAvrcpSession);
    assert_eq!(
        player.subscription(),
        vec![Source::ConnectionEvents, Source::L2capServers, Source::RemoteControl]
    );
}
