//! Commands: what keys mean, and what each command does to the dashboard.

pub mod command;
pub mod executor;
pub mod registry;
pub mod laws;

pub use command::Command;
pub use executor::{CommandEffect, CommandExecutor};
pub use registry::{AppModeKind, CommandRegistry, Key, KeyPress};
