//! Dev machine bootstrapper: the verified core.
//!
//! The library decides what the `setup`, `export` and `upgrade` commands do:
//! which components run, the exact shell commands, file copies and messages
//! of each component, the parsing of command output, Windows-to-WSL path
//! conversion and the error texts.  Effects are described as values
//! (`components::effects`) and carried out by the program around it.

pub mod cli;
pub mod commands;
pub mod components;
pub mod error;
pub mod json;
pub mod text;
pub mod utils;

pub use cli::{Cli, Command};
pub use error::BootstrapError;
