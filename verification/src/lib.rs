//! The logic of a player that turns the computer into a Bluetooth speaker.

pub mod audio;
pub mod bluetooth;
pub mod config;
pub mod hci;
pub mod laws;
pub mod player;
pub mod states;
pub mod text;
pub mod time;
