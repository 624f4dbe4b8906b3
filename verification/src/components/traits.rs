//! The operations a component offers: each gives the job that performs it.

use crate::components::git::{Git, GitExport, GitImport};
use crate::components::job::{Job, Work};
use crate::components::powershell::{PowerShell, PowerShellExport, PowerShellImport};
use crate::components::vscode::{VsCode, VsCodeExport, VsCodeImport, VsCodeUpgrade};
use crate::components::winget::{WinGet, WinGetExport, WinGetImport, WinGetUpgrade};
use crate::components::wsl::{Availability, Wsl, WslExport, WslImport, WslUpgrade};
use crate::text::owned;
use vstd::prelude::*;

verus! {

/// Trait for components that can export their configuration.
pub trait Exportable {
    /// The component's name.
    spec fn export_label(&self) -> Seq<char>;

    /// The name of the component (for logging/display).
    fn name(&self) -> (r: &'static str)
        ensures
            r@ == self.export_label(),
    ;

    /// The job exporting the component's configuration to the given config root.
    fn export(&self, config_root: &str) -> (j: Job)
        ensures
            j.config_root@ == config_root@,
    ;
}

/// Trait for components that can import/apply configuration.
pub trait Importable {
    /// The component's name.
    spec fn import_label(&self) -> Seq<char>;

    /// The name of the component (for logging/display).
    fn name(&self) -> (r: &'static str)
        ensures
            r@ == self.import_label(),
    ;

    /// The job importing and applying configuration from the given config root.
    fn import(&self, config_root: &str) -> (j: Job)
        ensures
            j.config_root@ == config_root@,
    ;
}

/// Trait for components that can be upgraded.
pub trait Upgradable {
    /// The component's name.
    spec fn upgrade_label(&self) -> Seq<char>;

    /// The name of the component (for logging/display).
    fn name(&self) -> (r: &'static str)
        ensures
            r@ == self.upgrade_label(),
    ;

    /// The job upgrading the component (packages, extensions, etc.).
    fn upgrade(&self, config_root: &str) -> (j: Job)
        ensures
            j.config_root@ == config_root@,
    ;
}

impl Exportable for Git {
    open spec fn export_label(&self) -> Seq<char> {
        "Git Config"@
    }

    fn name(&self) -> &'static str {
        "Git Config"
    }

    fn export(&self, config_root: &str) -> (j: Job)
        ensures
            j.config_root@ == config_root@,
            j.work == Work::GitExport(GitExport::Start),
    {
        Job { config_root: owned(config_root), work: Work::GitExport(GitExport::Start) }
    }
}

impl Importable for Git {
    open spec fn import_label(&self) -> Seq<char> {
        "Git Config"@
    }

    fn name(&self) -> &'static str {
        "Git Config"
    }

    fn import(&self, config_root: &str) -> (j: Job)
        ensures
            j.config_root@ == config_root@,
            j.work == Work::GitImport(GitImport::Start),
    {
        Job { config_root: owned(config_root), work: Work::GitImport(GitImport::Start) }
    }
}

impl Exportable for PowerShell {
    open spec fn export_label(&self) -> Seq<char> {
        "PowerShell Profile"@
    }

    fn name(&self) -> &'static str {
        "PowerShell Profile"
    }

    fn export(&self, config_root: &str) -> (j: Job)
        ensures
            j.config_root@ == config_root@,
            j.work == Work::PowerShellExport(*self, PowerShellExport::Start),
    {
        Job { config_root: owned(config_root), work: Work::PowerShellExport(self.clone(), PowerShellExport::Start) }
    }
}

impl Importable for PowerShell {
    open spec fn import_label(&self) -> Seq<char> {
        "PowerShell Profile"@
    }

    fn name(&self) -> &'static str {
        "PowerShell Profile"
    }

    fn import(&self, config_root: &str) -> (j: Job)
        ensures
            j.config_root@ == config_root@,
            j.work == Work::PowerShellImport(PowerShellImport::Start),
    {
        Job { config_root: owned(config_root), work: Work::PowerShellImport(PowerShellImport::Start) }
    }
}

impl Exportable for VsCode {
    open spec fn export_label(&self) -> Seq<char> {
        "VS Code"@
    }

    fn name(&self) -> &'static str {
        "VS Code"
    }

    fn export(&self, config_root: &str) -> (j: Job)
        ensures
            j.config_root@ == config_root@,
            j.work == Work::VsCodeExport(VsCodeExport::Start),
    {
        Job { config_root: owned(config_root), work: Work::VsCodeExport(VsCodeExport::Start) }
    }
}

impl Importable for VsCode {
    open spec fn import_label(&self) -> Seq<char> {
        "VS Code"@
    }

    fn name(&self) -> &'static str {
        "VS Code"
    }

    fn import(&self, config_root: &str) -> (j: Job)
        ensures
            j.config_root@ == config_root@,
            j.work == Work::VsCodeImport(VsCodeImport::Start),
    {
        Job { config_root: owned(config_root), work: Work::VsCodeImport(VsCodeImport::Start) }
    }
}

impl Upgradable for VsCode {
    open spec fn upgrade_label(&self) -> Seq<char> {
        "VS Code Extensions"@
    }

    fn name(&self) -> &'static str {
        "VS Code Extensions"
    }

    fn upgrade(&self, config_root: &str) -> (j: Job)
        ensures
            j.config_root@ == config_root@,
            j.work == Work::VsCodeUpgrade(VsCodeUpgrade::Start),
    {
        Job { config_root: owned(config_root), work: Work::VsCodeUpgrade(VsCodeUpgrade::Start) }
    }
}

impl Exportable for WinGet {
    open spec fn export_label(&self) -> Seq<char> {
        "WinGet Packages"@
    }

    fn name(&self) -> &'static str {
        "WinGet Packages"
    }

    fn export(&self, config_root: &str) -> (j: Job)
        ensures
            j.config_root@ == config_root@,
            j.work == Work::WinGetExport(WinGetExport::Start),
    {
        Job { config_root: owned(config_root), work: Work::WinGetExport(WinGetExport::Start) }
    }
}

impl Importable for WinGet {
    open spec fn import_label(&self) -> Seq<char> {
        "WinGet Packages"@
    }

    fn name(&self) -> &'static str {
        "WinGet Packages"
    }

    fn import(&self, config_root: &str) -> (j: Job)
        ensures
            j.config_root@ == config_root@,
            j.work == Work::WinGetImport(WinGetImport::Start),
    {
        Job { config_root: owned(config_root), work: Work::WinGetImport(WinGetImport::Start) }
    }
}

impl Upgradable for WinGet {
    open spec fn upgrade_label(&self) -> Seq<char> {
        "WinGet Packages"@
    }

    fn name(&self) -> &'static str {
        "WinGet Packages"
    }

    fn upgrade(&self, config_root: &str) -> (j: Job)
        ensures
            j.config_root@ == config_root@,
            j.work == Work::WinGetUpgrade(WinGetUpgrade::Start),
    {
        Job { config_root: owned(config_root), work: Work::WinGetUpgrade(WinGetUpgrade::Start) }
    }
}

impl Exportable for Wsl {
    open spec fn export_label(&self) -> Seq<char> {
        "WSL Dotfiles"@
    }

    fn name(&self) -> &'static str {
        "WSL Dotfiles"
    }

    fn export(&self, config_root: &str) -> (j: Job)
        ensures
            j.config_root@ == config_root@,
            j.work == Work::WslExport(*self, WslExport::Checking(Availability::Start)),
    {
        Job { config_root: owned(config_root), work: Work::WslExport(self.clone(), WslExport::Checking(Availability::Start)) }
    }
}

impl Importable for Wsl {
    open spec fn import_label(&self) -> Seq<char> {
        "WSL Dotfiles"@
    }

    fn name(&self) -> &'static str {
        "WSL Dotfiles"
    }

    fn import(&self, config_root: &str) -> (j: Job)
        ensures
            j.config_root@ == config_root@,
            j.work == Work::WslImport(*self, WslImport::Checking(Availability::Start)),
    {
        Job { config_root: owned(config_root), work: Work::WslImport(self.clone(), WslImport::Checking(Availability::Start)) }
    }
}

impl Upgradable for Wsl {
    open spec fn upgrade_label(&self) -> Seq<char> {
        "WSL Packages"@
    }

    fn name(&self) -> &'static str {
        "WSL Packages"
    }

    fn upgrade(&self, config_root: &str) -> (j: Job)
        ensures
            j.config_root@ == config_root@,
            j.work == Work::WslUpgrade(*self, WslUpgrade::Checking(Availability::Start)),
    {
        Job { config_root: owned(config_root), work: Work::WslUpgrade(self.clone(), WslUpgrade::Checking(Availability::Start)) }
    }
}

} // verus!
