//! The setup of a link, call by call.

use crate::hci::{RemoteAddr, Role};
use crate::states::link_setup;
use crate::states::link_setup::{LinkCommand, LinkReply, LinkSetup, LinkStep, Stage};
use crate::states::running::Message;
use crate::states::servers::ServerCommand;
use vstd::prelude::*;

verus! {

/// A setup begins with its link, and asks for the role that this end takes in it.
pub proof fn setup_begins_with_the_role(addr: RemoteAddr, handle: u16, r: (LinkSetup, LinkCommand))
    requires
        call_ensures(LinkSetup::start, (addr, handle), r),
    ensures
        r.0.addr == addr,
        r.0.handle == handle,
        r.0.stage is DiscoveringRole,
        r.1 matches LinkCommand::DiscoverRole { handle: h } && h == handle,
{
}

/// A setup never strays from its link: whatever is asked of the controller, and whatever is handed
/// over, is that link.
pub proof fn setup_keeps_to_its_link(setup: &mut LinkSetup, reply: LinkReply, step: LinkStep)
    requires
        link_setup::is_answer(old(setup).stage, reply),
        call_ensures(LinkSetup::advance, (setup, reply), step),
    ensures
        final(setup).addr == old(setup).addr,
        final(setup).handle == old(setup).handle,
        match step {
            LinkStep::Call(LinkCommand::DiscoverRole { .. }) => false,
            LinkStep::Call(LinkCommand::SwitchRole { addr, role }) => addr == old(setup).addr
                && role is Slave,
            LinkStep::Call(LinkCommand::RequestAuthentication { handle }) => handle
                == old(setup).handle,
            LinkStep::Call(LinkCommand::SetEncryption { handle, enabled }) => handle
                == old(setup).handle && enabled,
            LinkStep::HandOver(ServerCommand::ConnectTo(handle)) => handle == old(setup).handle,
            LinkStep::GiveUp(_) => true,
        },
{
}

/// Which step follows which answer: only the lead of the link is given up, only a failure to give
/// it up is let pass, and authentication, encryption and handing over come in this order.
pub proof fn setup_goes_step_by_step(setup: &mut LinkSetup, reply: LinkReply, step: LinkStep)
    requires
        link_setup::is_answer(old(setup).stage, reply),
        call_ensures(LinkSetup::advance, (setup, reply), step),
    ensures
        match (old(setup).stage, reply) {
            (Stage::DiscoveringRole, LinkReply::Role(Role::Master)) => {
                &&& final(setup).stage is SwitchingRole
                &&& step matches LinkStep::Call(command)
                &&& command is SwitchRole
            },
            (Stage::DiscoveringRole, LinkReply::Role(Role::Slave)) | (Stage::SwitchingRole, _) => {
                &&& final(setup).stage is Authenticating
                &&& step matches LinkStep::Call(command)
                &&& command is RequestAuthentication
            },
            (Stage::Authenticating, LinkReply::Done) => {
                &&& final(setup).stage is Encrypting
                &&& step matches LinkStep::Call(command)
                &&& command is SetEncryption
            },
            (Stage::Encrypting, LinkReply::Done) => {
                &&& final(setup).stage is HandedOver
                &&& step is HandOver
            },
            (_, LinkReply::Failed(error)) => {
                &&& final(setup).stage is Failed
                &&& step == LinkStep::GiveUp(Message::Error(error))
            },
            _ => false,
        },
{
}

/// The answers that a setup can wait for.
pub proof fn setup_waits_for_what_it_asked(stage: Stage, reply: LinkReply)
    ensures
        link_setup::is_answer(stage, reply) <==> match reply {
            LinkReply::Role(_) => stage is DiscoveringRole,
            LinkReply::Done => stage is SwitchingRole || stage is Authenticating
                || stage is Encrypting,
            LinkReply::Failed(_) => !(stage is HandedOver) && !(stage is Failed),
        },
{
}

/// The link that is handed over is the one that the setup began with, and the one that was
/// authenticated and encrypted: told over the calls of a setup that goes well.
pub proof fn secured_link_is_handed_over(
    addr: RemoteAddr,
    handle: u16,
    start: (LinkSetup, LinkCommand),
    authenticating: &mut LinkSetup,
    asked: LinkStep,
    encrypting: &mut LinkSetup,
    authenticated: LinkStep,
    ending: &mut LinkSetup,
    encrypted: LinkStep,
)
    requires
        call_ensures(LinkSetup::start, (addr, handle), start),
        *old(authenticating) == start.0,
        call_ensures(
            LinkSetup::advance,
            (authenticating, LinkReply::Role(Role::Slave)),
            asked,
        ),
        *old(encrypting) == *final(authenticating),
        call_ensures(LinkSetup::advance, (encrypting, LinkReply::Done), authenticated),
        *old(ending) == *final(encrypting),
        call_ensures(LinkSetup::advance, (ending, LinkReply::Done), encrypted),
    ensures
        asked == LinkStep::Call(LinkCommand::RequestAuthentication { handle }),
        authenticated == LinkStep::Call(LinkCommand::SetEncryption { handle, enabled: true }),
        encrypted == LinkStep::HandOver(ServerCommand::ConnectTo(handle)),
{
}

}
