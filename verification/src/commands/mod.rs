//! Command execution plans.
//!
//! Each command (setup, export, upgrade) is a list of steps: headings and
//! messages, component jobs, and for export the creation of the config root
//! and the refusal to overwrite.

pub mod export;
pub mod plan;
pub mod setup;
pub mod upgrade;

pub use export::execute as export;
pub use setup::execute as setup;
pub use upgrade::execute as upgrade;
