//! Component modules for managing different aspects of the development environment.
//!
//! Each component's export, import and upgrade is a job (`job::Job`): a state
//! machine that names one effect at a time (`effects`) and decides the next
//! from the reply.

pub mod effects;
pub mod git;
pub mod job;
pub mod powershell;
pub mod traits;
pub mod vscode;
pub mod winget;
pub mod wsl;

pub use git::Git;
pub use powershell::PowerShell;
pub use traits::{Exportable, Importable, Upgradable};
pub use vscode::VsCode;
pub use winget::WinGet;
pub use wsl::Wsl;
