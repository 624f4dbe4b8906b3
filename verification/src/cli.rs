//! Command-line interface definitions.
//!
//! A run selects one command.  When none of a command's component flags is
//! given, the command covers all of its components.

use vstd::prelude::*;

verus! {

/// Dev Machine Bootstrapper - Configure and maintain your development environment.
pub struct Cli {
    pub command: Command,
    /// Enable verbose output
    pub verbose: bool,
}

pub enum Command {
    /// Set up the development environment using configuration from a path
    Setup(SetupArgs),
    /// Export current system settings to a configuration path
    Export(ExportArgs),
    /// Upgrade all installed applications
    Upgrade(UpgradeArgs),
}

/// Arguments for the setup command.
pub struct SetupArgs {
    /// Path to the configuration root (contains dotfiles/ and config/ folders)
    pub config_root: Option<String>,
    /// Minimal installation (skip optional packages)
    pub minimal: bool,
    /// Skip Docker installation
    pub skip_docker: bool,
    /// Skip WSL installation and provisioning
    pub skip_wsl: bool,
    /// Skip WSL provisioning (WSL will be installed but not configured)
    pub no_wsl_provision: bool,
    /// URL to external dotfiles repository to clone
    pub dotfiles_repo: Option<String>,
    /// Only set up WinGet packages
    pub winget: bool,
    /// Only set up VS Code
    pub vscode: bool,
    /// Only set up the PowerShell profile
    pub powershell: bool,
    /// Only set up Git
    pub git: bool,
    /// Only set up WSL dotfiles
    pub wsl: bool,
}

/// Arguments for the export command.
pub struct ExportArgs {
    /// Path to export configuration to
    pub config_root: Option<String>,
    /// Skip WSL dotfiles export
    pub skip_wsl: bool,
    /// WSL distribution name
    pub wsl_distro: String,
    /// Overwrite existing configuration files
    pub force: bool,
    /// Only export WinGet packages
    pub winget: bool,
    /// Only export VS Code settings and extensions
    pub vscode: bool,
    /// Only export the PowerShell profile
    pub powershell: bool,
    /// Only export Git configuration
    pub git: bool,
    /// Only export WSL dotfiles
    pub wsl: bool,
}

/// Arguments for the upgrade command.
pub struct UpgradeArgs {
    /// Path to configuration root (for extension lists)
    pub config_root: Option<String>,
    /// Skip WSL package upgrades
    pub skip_wsl: bool,
    /// WSL distribution name
    pub wsl_distro: String,
    /// Only upgrade WinGet packages
    pub winget: bool,
    /// Only upgrade VS Code extensions
    pub vscode: bool,
    /// Only upgrade WSL packages
    pub wsl: bool,
}

/// The configuration root that the command names, if it names one.
pub open spec fn named_root(command: Command) -> Option<String> {
    match command {
        Command::Setup(a) => a.config_root,
        Command::Export(a) => a.config_root,
        Command::Upgrade(a) => a.config_root,
    }
}

/// The configuration root given on the command line; the program falls back to
/// the current directory when there is none.
pub fn get_config_root(command: &Command) -> (r: Option<String>)
    ensures
        match named_root(*command) {
            Some(p) => r matches Some(q) && q@ == p@,
            None => r is None,
        },
{
    let given = match command {
        Command::Setup(a) => &a.config_root,
        Command::Export(a) => &a.config_root,
        Command::Upgrade(a) => &a.config_root,
    };
    match given {
        Some(p) => Some(p.clone()),
        None => None,
    }
}

} // verus!
