//! Drives a coding agent that runs as a child process and speaks JSON lines:
//! one prompt per turn, and the frames of its stream turned into events that
//! are the same for every agent.
//!
//! - [`server`]: inputs become turns
//! - [`turn`]: a turn, from its prompt to its end or its interruption
//! - [`frame`]: the frames of the stream and the [`events`] they stand for
//! - [`command`]: the commands that are sent
//! - [`child`]: how the process is set up, started and restarted
//! - [`json`] and [`text`]: what these are read and written with
//! - [`laws`]: what holds of all of it

pub mod child;
pub mod command;
pub mod events;
pub mod frame;
pub mod json;
pub mod laws;
pub mod server;
pub mod text;
pub mod turn;
