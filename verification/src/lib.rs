//! Build orchestration for Cazan projects: the lock protocol that snapshots a
//! project's configuration, the discovery and merge rules of the asset build,
//! and the bookkeeping of the multi-line progress display.
//!
//! The crate performs no input or output. Each command is a state machine that
//! names the next thing to do to the project directory and is told how it went;
//! a host program carries those requests out.

pub mod artifact;
pub mod assets;
pub mod cli;
pub mod config;
pub mod terminal;
pub mod text;
