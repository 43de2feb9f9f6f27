//! Bringing a link that was made from here to the point where it can carry audio.

use crate::hci::{RemoteAddr, Role};
use crate::states::running::Message;
use crate::states::servers::ServerCommand;
use vstd::prelude::*;

verus! {

/// How far the setup has come: what it waits for.
#[derive(Clone, Copy, Debug, PartialEq, Eq, Structural)]
pub enum Stage {
    DiscoveringRole,
    SwitchingRole,
    Authenticating,
    Encrypting,
    HandedOver,
    Failed,
}

/// What the setup asks of the controller.
#[derive(Clone, Copy, Debug, PartialEq, Eq, Structural)]
pub enum LinkCommand {
    DiscoverRole { handle: u16 },
    SwitchRole { addr: RemoteAddr, role: Role },
    RequestAuthentication { handle: u16 },
    SetEncryption { handle: u16, enabled: bool },
}

/// What the controller answers.
#[derive(Debug, PartialEq, Eq)]
pub enum LinkReply {
    Role(Role),
    Done,
    Failed(String),
}

/// What follows an answer.
#[derive(Debug, PartialEq, Eq)]
pub enum LinkStep {
    Call(LinkCommand),
    /// The link is ready: the servers take it over.
    HandOver(ServerCommand),
    /// The setup is given up, and the player is told why.
    GiveUp(Message),
}

/// The setup of one link.
#[derive(Clone, Copy, Debug, PartialEq, Eq, Structural)]
pub struct LinkSetup {
    pub addr: RemoteAddr,
    pub handle: u16,
    pub stage: Stage,
}

/// Whether this is an answer to what is waited for.
pub open spec fn is_answer(stage: Stage, reply: LinkReply) -> bool {
    match stage {
        Stage::DiscoveringRole => reply is Role || reply is Failed,
        Stage::SwitchingRole | Stage::Authenticating | Stage::Encrypting => reply is Done
            || reply is Failed,
        Stage::HandedOver | Stage::Failed => false,
    }
}

/// What is waited for after an answer. The role is switched only where this end leads the link,
/// and a switch that fails is let pass; every other failure ends the setup.
pub open spec fn stage_after(stage: Stage, reply: LinkReply) -> Stage {
    match stage {
        Stage::DiscoveringRole => match reply {
            LinkReply::Role(Role::Master) => Stage::SwitchingRole,
            LinkReply::Role(Role::Slave) => Stage::Authenticating,
            _ => Stage::Failed,
        },
        Stage::SwitchingRole => Stage::Authenticating,
        Stage::Authenticating => if reply is Done {
            Stage::Encrypting
        } else {
            Stage::Failed
        },
        Stage::Encrypting => if reply is Done {
            Stage::HandedOver
        } else {
            Stage::Failed
        },
        _ => stage,
    }
}

impl LinkSetup {
    /// What brings the setup to a stage.
    pub open spec fn step_into(self, stage: Stage, reply: LinkReply) -> LinkStep {
        match stage {
            Stage::DiscoveringRole => LinkStep::Call(
                LinkCommand::DiscoverRole { handle: self.handle },
            ),
            Stage::SwitchingRole => LinkStep::Call(
                LinkCommand::SwitchRole { addr: self.addr, role: Role::Slave },
            ),
            Stage::Authenticating => LinkStep::Call(
                LinkCommand::RequestAuthentication { handle: self.handle },
            ),
            Stage::Encrypting => LinkStep::Call(
                LinkCommand::SetEncryption { handle: self.handle, enabled: true },
            ),
            Stage::HandedOver => LinkStep::HandOver(ServerCommand::ConnectTo(self.handle)),
            Stage::Failed => LinkStep::GiveUp(Message::Error(reply->Failed_0)),
        }
    }

    /// Begins the setup of a link.
    pub fn start(addr: RemoteAddr, handle: u16) -> (r: (Self, LinkCommand))
        ensures
            r.0 == (LinkSetup { addr, handle, stage: Stage::DiscoveringRole }),
            r.1 == (LinkCommand::DiscoverRole { handle }),
    {
        (
            LinkSetup { addr, handle, stage: Stage::DiscoveringRole },
            LinkCommand::DiscoverRole { handle },
        )
    }

    /// Carries the setup on with the answer it waited for.
    pub fn advance(&mut self, reply: LinkReply) -> (step: LinkStep)
        requires
            is_answer(old(self).stage, reply),
        ensures
            *final(self) == (LinkSetup { stage: stage_after(old(self).stage, reply), ..*old(self) }),
            step == old(self).step_into(final(self).stage, reply),
    {
        let handle = self.handle;
        match (self.stage, reply) {
            (Stage::SwitchingRole, _) | (Stage::DiscoveringRole, LinkReply::Role(Role::Slave)) => {
                self.stage = Stage::Authenticating;
                LinkStep::Call(LinkCommand::RequestAuthentication { handle })
            },
            (_, LinkReply::Failed(error)) => {
                self.stage = Stage::Failed;
                LinkStep::GiveUp(Message::Error(error))
            },
            (_, LinkReply::Role(_)) => {
                self.stage = Stage::SwitchingRole;
                LinkStep::Call(LinkCommand::SwitchRole { addr: self.addr, role: Role::Slave })
            },
            (Stage::Authenticating, LinkReply::Done) => {
                self.stage = Stage::Encrypting;
                LinkStep::Call(LinkCommand::SetEncryption { handle, enabled: true })
            },
            (_, LinkReply::Done) => {
                self.stage = Stage::HandedOver;
                LinkStep::HandOver(ServerCommand::ConnectTo(handle))
            },
        }
    }
}

/// The stage after a number of answers, from the start.
pub open spec fn stage_after_all(replies: Seq<LinkReply>) -> Stage
    decreases replies.len(),
{
    if replies.len() == 0 {
        Stage::DiscoveringRole
    } else {
        stage_after(stage_after_all(replies.drop_last()), replies.last())
    }
}

/// Whether each answer of a row was waited for.
pub open spec fn all_answer(replies: Seq<LinkReply>) -> bool
    decreases replies.len(),
{
    replies.len() > 0 ==> all_answer(replies.drop_last()) && is_answer(
        stage_after_all(replies.drop_last()),
        replies.last(),
    )
}

/// A link is handed over only once it was authenticated and then encrypted: those are the two
/// answers before.
pub proof fn only_a_secured_link_is_handed_over(replies: Seq<LinkReply>)
    requires
        all_answer(replies),
        stage_after_all(replies) is HandedOver,
    ensures
        ({
            let encrypted = replies.drop_last();
            let authenticated = encrypted.drop_last();
            &&& replies.len() >= 3
            &&& stage_after_all(encrypted) is Encrypting && replies.last() is Done
            &&& stage_after_all(authenticated) is Authenticating && encrypted.last() is Done
        }),
{
    reveal_with_fuel(stage_after_all, 4);
    reveal_with_fuel(all_answer, 4);
}

/// The setup comes to an end: it waits for four answers at most.
pub proof fn setup_ends(replies: Seq<LinkReply>)
    requires
        all_answer(replies),
    ensures
        replies.len() <= 4,
        replies.len() == 4 ==> stage_after_all(replies) is HandedOver || stage_after_all(
            replies,
        ) is Failed,
    decreases replies.len(),
{
    reveal_with_fuel(stage_after_all, 6);
    reveal_with_fuel(all_answer, 6);
}

}
