//! The commands, each as a state machine over requests to the project
//! directory and the answers to them.

pub mod init;
pub mod lock;
pub mod prebuild;
pub mod subcommands;
