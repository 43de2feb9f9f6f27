//! The states of the player once the controller is up.

use vstd::prelude::*;

pub mod devices;
pub mod laws;
pub mod link_setup;
pub mod remote_control;
pub mod running;
pub mod servers;
pub mod session;

verus! {

/// A part of the player that takes messages, shows itself and names what it listens to.
pub trait SubState: Sized {
    /// What the part is told.
    type Message;

    /// What it asks to be done.
    type Effect;

    /// What it shows that is kept elsewhere.
    type Surroundings;

    /// What it shows.
    type Screen;

    /// What it listens to.
    type Source;

    /// Whether the message can come in this state.
    spec fn accepts(&self, message: Self::Message) -> bool;

    /// Whether the state can be shown.
    spec fn can_show(&self) -> bool;

    fn update(&mut self, message: Self::Message) -> (effects: Vec<Self::Effect>)
        requires
            old(self).accepts(message),
    ;

    fn view(&self, surroundings: Self::Surroundings) -> (screen: Self::Screen)
        requires
            self.can_show(),
    ;

    fn subscription(&self) -> (sources: Vec<Self::Source>)
        default_ensures
            sources@ == Seq::<Self::Source>::empty(),
    {
        Vec::new()
    }
}

}
