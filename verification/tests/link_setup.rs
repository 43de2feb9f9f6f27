use bluefang_player::hci::{RemoteAddr, Role};
use bluefang_player::states::link_setup::{LinkCommand, LinkReply, LinkSetup, LinkStep, Stage};
use bluefang_player::states::running::Message;
use bluefang_player::states::servers::{
    server_plan, server_step, Endpoint, EndpointCapability, EndpointKind, MediaType,
    ServerCommand, ServerInput, ServerStep, ServiceRecord,
};

const ADDR: RemoteAddr = RemoteAddr { value: 6 };

#[test]
fn a_led_link_is_switched_first() {
    let (mut setup, command) = LinkSetup::start(ADDR, 3);
    assert_eq!(command, LinkCommand::DiscoverRole { handle: 3 });
    assert_eq!(
        setup.advance(LinkReply::Role(Role::Master)),
        LinkStep::Call(LinkCommand::SwitchRole { addr: ADDR, role: Role::Slave })
    );
    assert_eq!(
        setup.advance(LinkReply::Failed("busy".to_string())),
        LinkStep::Call(LinkCommand::RequestAuthentication { handle: 3 })
    );
    assert_eq!(
        setup.advance(LinkReply::Done),
        LinkStep::Call(LinkCommand::SetEncryption { handle: 3, enabled: true })
    );
    assert_eq!(
        setup.advance(LinkReply::Done),
        LinkStep::HandOver(ServerCommand::ConnectTo(3))
    );
    assert_eq!(setup.stage, Stage::HandedOver);
}

#[test]
fn a_following_link_is_authenticated_at_once() {
    let (mut setup, _) = LinkSetup::start(ADDR, 3);
    assert_eq!(
        setup.advance(LinkReply::Role(Role::Slave)),
        LinkStep::Call(LinkCommand::RequestAuthentication { handle: 3 })
    );
    assert_eq!(setup.stage, Stage::Authenticating);
}

#[test]
fn a_failure_ends_the_setup() {
    let failed = || LinkReply::Failed("no".to_string());
    let given_up = || LinkStep::GiveUp(Message::Error("no".to_string()));
    let (mut setup, _) = LinkSetup::start(ADDR, 3);
    assert_eq!(setup.advance(failed()), given_up());
    assert_eq!(setup.stage, Stage::Failed);
    let (mut setup, _) = LinkSetup::start(ADDR, 3);
    setup.advance(LinkReply::Role(Role::Slave));
    assert_eq!(setup.advance(failed()), given_up());
    let (mut setup, _) = LinkSetup::start(ADDR, 3);
    setup.advance(LinkReply::Role(Role::Slave));
    setup.advance(LinkReply::Done);
    assert_eq!(setup.advance(failed()), given_up());
    assert_eq!(setup.stage, Stage::Failed);
}

#[test]
fn the_servers_loop() {
    assert_eq!(server_step(ServerInput::Stopped), ServerStep::Stop);
    assert_eq!(server_step(ServerInput::Command(None)), ServerStep::Wait);
    assert_eq!(
        server_step(ServerInput::Command(Some(ServerCommand::ConnectTo(7)))),
        ServerStep::ConnectTransport { handle: 7 }
    );
}

#[test]
fn what_is_served() {
    let plan = server_plan();
    assert_eq!(
        plan.endpoints,
        vec![Endpoint {
            media_type: MediaType::Audio,
            seid: 1,
            in_use: false,
            kind: EndpointKind::Sink,
            capabilities: vec![EndpointCapability::MediaTransport, EndpointCapability::SbcCodec],
        }]
    );
    assert_eq!(
        plan.records,
        vec![
            ServiceRecord::A2dpSink(0x00010001),
            ServiceRecord::AvrcpController(0x00010002),
            ServiceRecord::AvrcpTarget(0x00010003),
        ]
    );
    assert!(plan.discoverable && plan.connectable);
}
