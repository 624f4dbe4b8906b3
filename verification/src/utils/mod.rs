//! Path and shell-command helpers.

pub mod paths;
pub mod shell;
