//! Playback coordination for a command-line music client: the track queue,
//! the player's state machine, command parsing and the command dispatcher.

pub mod command;
pub mod fetch;
pub mod interact;
pub mod invoke;
pub mod model;
pub mod play;
pub mod queue;
pub mod text;
pub mod track;
