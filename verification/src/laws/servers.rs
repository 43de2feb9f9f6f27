//! The servers, call by call.

use crate::states::servers::{
    server_plan, server_step, EndpointCapability, ServerCommand, ServerInput, ServerPlan,
    ServerStep, ServiceRecord,
};
use vstd::prelude::*;

verus! {

/// The servers' loop opens the transport over the very link that it is told, stops only when the
/// servers did, and otherwise waits.
pub proof fn servers_do_what_they_are_told(input: ServerInput, step: ServerStep)
    requires
        call_ensures(server_step, (input,), step),
    ensures
        match input {
            ServerInput::Stopped => step is Stop,
            ServerInput::Command(None) => step is Wait,
            ServerInput::Command(Some(ServerCommand::ConnectTo(told))) => step
                == ServerStep::ConnectTransport { handle: told },
        },
{
}

/// The computer is offered as a speaker: one endpoint, which takes audio in, is free, and can do
/// the SBC codec over a media transport; the services of a sink and of both ends of a remote
/// control; and it can be found and linked with.
pub proof fn computer_is_a_speaker(plan: ServerPlan)
    requires
        call_ensures(server_plan, (), plan),
    ensures
        plan.endpoints@.len() == 1,
        plan.endpoints@[0].media_type is Audio,
        plan.endpoints@[0].kind is Sink,
        plan.endpoints@[0].seid == 1,
        !plan.endpoints@[0].in_use,
        plan.endpoints@[0].capabilities@ == seq![
            EndpointCapability::MediaTransport,
            EndpointCapability::SbcCodec,
        ],
        plan.records@ == seq![
            ServiceRecord::A2dpSink(65537),
            ServiceRecord::AvrcpController(65538),
            ServiceRecord::AvrcpTarget(65539),
        ],
        plan.discoverable && plan.connectable,
{
}

}
