//! The servers that other devices connect to.

use vstd::prelude::*;

verus! {

/// What the servers are told while they run.
#[derive(Clone, Copy, Debug, PartialEq, Eq, Structural)]
pub enum ServerCommand {
    ConnectTo(u16),
}

/// What the servers' loop gets to hear.
#[derive(Clone, Copy, Debug, PartialEq, Eq, Structural)]
pub enum ServerInput {
    /// The servers came to an end.
    Stopped,
    /// A command, or the end of the channel that commands come over.
    Command(Option<ServerCommand>),
}

/// What the servers' loop does next.
#[derive(Clone, Copy, Debug, PartialEq, Eq, Structural)]
pub enum ServerStep {
    /// Leave the loop.
    Stop,
    /// Open the audio transport over a link.
    ConnectTransport { handle: u16 },
    /// Wait for more.
    Wait,
}

/// Decides what the servers' loop does: only the end of the servers ends it.
pub fn server_step(input: ServerInput) -> (step: ServerStep)
    ensures
        step is Stop <==> input is Stopped,
        step matches ServerStep::ConnectTransport { handle } ==> input == ServerInput::Command(
            Some(ServerCommand::ConnectTo(handle)),
        ),
        input matches ServerInput::Command(Some(ServerCommand::ConnectTo(handle))) ==> step == (
        ServerStep::ConnectTransport { handle }),
{
    match input {
        ServerInput::Stopped => ServerStep::Stop,
        ServerInput::Command(Some(ServerCommand::ConnectTo(handle))) =>
        ServerStep::ConnectTransport { handle },
        ServerInput::Command(None) => ServerStep::Wait,
    }
}

/// A service that is announced to other devices, with the handle of its record.
#[derive(Clone, Copy, Debug, PartialEq, Eq, Structural)]
pub enum ServiceRecord {
    A2dpSink(u32),
    AvrcpController(u32),
    AvrcpTarget(u32),
}

impl ServiceRecord {
    pub open spec fn handle(self) -> u32 {
        match self {
            ServiceRecord::A2dpSink(handle) => handle,
            ServiceRecord::AvrcpController(handle) => handle,
            ServiceRecord::AvrcpTarget(handle) => handle,
        }
    }
}

/// What an endpoint carries.
#[derive(Clone, Copy, Debug, PartialEq, Eq, Structural)]
pub enum MediaType {
    Audio,
}

/// Which way the media goes at an endpoint.
#[derive(Clone, Copy, Debug, PartialEq, Eq, Structural)]
pub enum EndpointKind {
    /// The media comes in, to be played here.
    Sink,
}

/// What an audio endpoint can do.
#[derive(Clone, Copy, Debug, PartialEq, Eq, Structural)]
pub enum EndpointCapability {
    MediaTransport,
    /// The SBC codec, in every form of it.
    SbcCodec,
}

/// An endpoint that other devices can stream to or from.
#[derive(Debug, PartialEq, Eq)]
pub struct Endpoint {
    pub media_type: MediaType,
    /// The number of the endpoint.
    pub seid: u8,
    /// Whether a stream has taken the endpoint.
    pub in_use: bool,
    pub kind: EndpointKind,
    pub capabilities: Vec<EndpointCapability>,
}

/// What is served.
#[derive(Debug, PartialEq, Eq)]
pub struct ServerPlan {
    pub endpoints: Vec<Endpoint>,
    pub records: Vec<ServiceRecord>,
    /// Whether other devices can find this one.
    pub discoverable: bool,
    /// Whether other devices can connect to this one.
    pub connectable: bool,
}

/// What the player serves: one free sink for SBC audio, and the remote control in both roles, open to
/// every device once the servers are up.
pub fn server_plan() -> (plan: ServerPlan)
    ensures
        plan.endpoints.len() == 1,
        plan.endpoints@[0].media_type is Audio,
        plan.endpoints@[0].seid == 1,
        !plan.endpoints@[0].in_use,
        plan.endpoints@[0].kind is Sink,
        plan.endpoints@[0].capabilities@ == seq![
            EndpointCapability::MediaTransport,
            EndpointCapability::SbcCodec,
        ],
        plan.records@ == seq![
            ServiceRecord::A2dpSink(0x0001_0001),
            ServiceRecord::AvrcpController(0x0001_0002),
            ServiceRecord::AvrcpTarget(0x0001_0003),
        ],
        plan.discoverable,
        plan.connectable,
        forall|i: int, j: int|
            0 <= i < j < plan.records.len() ==> (#[trigger] plan.records@[i]).handle() != (
            #[trigger] plan.records@[j]).handle(),
{
    ServerPlan {
        endpoints: vec![
            Endpoint {
                media_type: MediaType::Audio,
                seid: 1,
                in_use: false,
                kind: EndpointKind::Sink,
                capabilities: vec![
                    EndpointCapability::MediaTransport,
                    EndpointCapability::SbcCodec,
                ],
            },
        ],
        records: vec![
            ServiceRecord::A2dpSink(0x0001_0001),
            ServiceRecord::AvrcpController(0x0001_0002),
            ServiceRecord::AvrcpTarget(0x0001_0003),
        ],
        discoverable: true,
        connectable: true,
    }
}

}
