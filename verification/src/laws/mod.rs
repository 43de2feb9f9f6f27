//! What every call of the library promises, told by what goes in and what comes out.
//!
//! A law speaks of a call by `call_ensures`: of a function, its arguments and its result. Of an
//! argument that the call changes, `old` is what it was before the call, and `final` what it is
//! after.

pub mod clock;
pub mod conversation;
pub mod devices;
pub mod link;
pub mod player;
pub mod remote;
pub mod running;
pub mod servers;
pub mod setup;
pub mod sound;
pub mod text;
