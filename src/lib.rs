//! Launch orchestration for a game compatibility tool: descriptor model,
//! command resolution, the one-time setup state machine, environment quirks
//! and the launch sequence, each stated as verified functions over plain values.

pub mod cli;
pub mod descriptor;
pub mod document;
pub mod launch;
pub mod pattern;
pub mod quirks;
pub mod resolve;
pub mod setup;

pub use pattern::Pattern;
