//! WinGet component for Windows package management.

use crate::components::effects::{
    answers, done, fail, info, quiet, success, warning, with_notes, Action, ActionView, Awaiting, Effect,
    EffectView, Level, Reply, runs_program, written,
};
use crate::error::{error_text, BootstrapError, ErrorView};
use crate::json::{count_packages, package_count, parse_json, parsed_json};
use crate::text::{concat, concat3, decimal, owned, usize_text};
use crate::utils::paths::{join, joined, lemma_joined2_under, lemma_joined_under, lemma_under_transitive, under};
use crate::utils::shell::command_of;
use vstd::prelude::*;

verus! {

/// WinGet component for Windows package management.
pub struct WinGet;

/// The error when WinGet is missing.
pub open spec fn winget_missing() -> ErrorView {
    ErrorView::CommandNotFound { command: "winget"@, hint: "Install 'App Installer' from Microsoft Store."@ }
}

impl WinGet {
    pub fn new() -> Self {
        WinGet
    }

    /// Check if WinGet is available: the effect asking whether `winget` is on
    /// the PATH.
    pub fn is_available() -> (e: Effect)
        ensures
            e@ == EffectView::CommandExists("winget"@),
    {
        Effect::CommandExists(owned("winget"))
    }

    /// WinGet must be installed: `found` says whether `winget` is on the PATH.
    pub fn ensure_available(&self, found: bool) -> (r: Result<(), BootstrapError>)
        ensures
            found ==> r is Ok,
            !found ==> (r matches Err(e) && e@ == winget_missing()),
    {
        if !found {
            return Err(BootstrapError::command_not_found("winget", "Install 'App Installer' from Microsoft Store."));
        }
        Ok(())
    }
}

impl Default for WinGet {
    fn default() -> (w: Self)
        ensures
            w == WinGet,
    {
        WinGet::new()
    }
}

/// `<root>/config`.
pub open spec fn config_dir(root: Seq<char>) -> Seq<char> {
    joined(root, "config"@)
}

/// `<root>/config/winget-packages.json`.
pub open spec fn winget_config(root: Seq<char>) -> Seq<char> {
    joined(config_dir(root), "winget-packages.json"@)
}

/// Progress of a WinGet export.
pub enum WinGetExport {
    Start,
    CheckingWinget,
    CreatingDir,
    LocatingTemp,
    Exporting { temp: String },
    CheckingTemp { temp: String },
    Reading { temp: String },
    Writing { temp: String, count: usize },
    Removing { count: usize },
    Over,
}

impl WinGetExport {
    /// How far the export is from its end: lower at every move.
    pub open spec fn rank(self) -> (nat, nat) {
        match self {
            WinGetExport::Start => (9, 0),
            WinGetExport::CheckingWinget => (8, 0),
            WinGetExport::CreatingDir => (7, 0),
            WinGetExport::LocatingTemp => (6, 0),
            WinGetExport::Exporting { .. } => (5, 0),
            WinGetExport::CheckingTemp { .. } => (4, 0),
            WinGetExport::Reading { .. } => (3, 0),
            WinGetExport::Writing { .. } => (2, 0),
            WinGetExport::Removing { .. } => (1, 0),
            WinGetExport::Over => (0, 0),
        }
    }

    /// The reply this stage waits for.
    pub open spec fn awaiting(self) -> Awaiting {
        match self {
            WinGetExport::Start => Awaiting::Begin,
            WinGetExport::CheckingWinget => Awaiting::Flag,
            WinGetExport::CreatingDir => Awaiting::Done,
            WinGetExport::LocatingTemp => Awaiting::Path,
            WinGetExport::Exporting { .. } => Awaiting::Ran,
            WinGetExport::CheckingTemp { .. } => Awaiting::Flag,
            WinGetExport::Reading { .. } => Awaiting::Text,
            WinGetExport::Writing { .. } => Awaiting::Done,
            WinGetExport::Removing { .. } => Awaiting::Done,
            WinGetExport::Over => Awaiting::Nothing,
        }
    }

    /// The reply this stage waits for.
    pub fn awaits(&self) -> (w: Awaiting)
        ensures
            w == self.awaiting(),
    {
        match self {
            WinGetExport::Start => Awaiting::Begin,
            WinGetExport::CheckingWinget => Awaiting::Flag,
            WinGetExport::CreatingDir => Awaiting::Done,
            WinGetExport::LocatingTemp => Awaiting::Path,
            WinGetExport::Exporting { .. } => Awaiting::Ran,
            WinGetExport::CheckingTemp { .. } => Awaiting::Flag,
            WinGetExport::Reading { .. } => Awaiting::Text,
            WinGetExport::Writing { .. } => Awaiting::Done,
            WinGetExport::Removing { .. } => Awaiting::Done,
            WinGetExport::Over => Awaiting::Nothing,
        }
    }
}

/// A package count fits a `usize` (summing it overflows otherwise).
pub open spec fn count_fits(reply: Reply) -> bool {
    (reply matches Reply::Text(Ok(t)) && parsed_json(t@) is Some) ==> package_count(
        parsed_json(reply->Text_0->Ok_0@)->0,
    ) <= usize::MAX
}

/// One move of a WinGet export: `winget export` into a temporary file, then
/// copy that file's JSON to `<root>/config/winget-packages.json` and report how
/// many packages it lists.
pub open spec fn winget_export_moves(root: Seq<char>, stage: WinGetExport, reply: Reply, next: WinGetExport, a: ActionView) -> bool {
    match (stage, reply) {
        (WinGetExport::Start, _) => next == WinGetExport::CheckingWinget && a == quiet(EffectView::CommandExists("winget"@)),
        (WinGetExport::CheckingWinget, Reply::Flag(false)) => next == WinGetExport::Over && a == quiet(fail(winget_missing())),
        (WinGetExport::CheckingWinget, Reply::Flag(true)) => next == WinGetExport::CreatingDir && a == quiet(
            EffectView::EnsureDir(config_dir(root)),
        ),
        (WinGetExport::CreatingDir, Reply::Done(Err(e))) => next == WinGetExport::Over && a == quiet(fail(e@)),
        (WinGetExport::CreatingDir, Reply::Done(Ok(()))) => next == WinGetExport::LocatingTemp && a == with_notes(
            seq![info("Exporting installed WinGet packages..."@)],
            EffectView::TempPath("winget-export-temp.json"@),
        ),
        (WinGetExport::LocatingTemp, Reply::Path(t)) => next == (WinGetExport::Exporting { temp: t }) && a == quiet(
            EffectView::Run("winget"@, seq!["export"@, "-o"@, t@, "--accept-source-agreements"@]),
        ),
        (WinGetExport::Exporting { temp }, Reply::Ran(Err(e))) => next == (WinGetExport::CheckingTemp { temp }) && a
            == with_notes(seq![warning("WinGet export warnings: "@ + error_text(e@))], EffectView::PathExists(temp@)),
        (WinGetExport::Exporting { temp }, Reply::Ran(Ok(_))) => next == (WinGetExport::CheckingTemp { temp }) && a
            == quiet(EffectView::PathExists(temp@)),
        (WinGetExport::CheckingTemp { .. }, Reply::Flag(false)) => next == WinGetExport::Over && a == with_notes(
            seq![warning("WinGet export failed - no output file created."@)],
            done(),
        ),
        (WinGetExport::CheckingTemp { temp }, Reply::Flag(true)) => next == (WinGetExport::Reading { temp }) && a
            == quiet(EffectView::ReadFile(temp@)),
        (WinGetExport::Reading { .. }, Reply::Text(Err(e))) => next == WinGetExport::Over && a == quiet(fail(e@)),
        (WinGetExport::Reading { temp }, Reply::Text(Ok(t))) => match parsed_json(t@) {
            Some(doc) => next == (WinGetExport::Writing { temp, count: package_count(doc) as usize }) && a == quiet(
                EffectView::WriteFile(winget_config(root), t@),
            ),
            None => next == WinGetExport::Over && a.notes == Seq::<(Level, Seq<char>)>::empty()
                && a.effect matches EffectView::Finish(Err(ErrorView::Json(_))),
        },
        (WinGetExport::Writing { .. }, Reply::Done(Err(e))) => next == WinGetExport::Over && a == quiet(fail(e@)),
        (WinGetExport::Writing { temp, count }, Reply::Done(Ok(()))) => next == (WinGetExport::Removing { count }) && a
            == quiet(EffectView::RemoveFile(temp@)),
        (WinGetExport::Removing { count }, Reply::Done(_)) => next == WinGetExport::Over && a == with_notes(
            seq![success("Exported "@ + decimal(count as nat) + " WinGet packages to: winget-packages.json"@)],
            done(),
        ),
        _ => false,
    }
}

/// Progress of a WinGet import.
pub enum WinGetImport {
    Start,
    CheckingWinget,
    CheckingConfig,
    UpdatingSources,
    Importing,
    Over,
}

impl WinGetImport {
    /// How far the import is from its end: lower at every move.
    pub open spec fn rank(self) -> (nat, nat) {
        match self {
            WinGetImport::Start => (5, 0),
            WinGetImport::CheckingWinget => (4, 0),
            WinGetImport::CheckingConfig => (3, 0),
            WinGetImport::UpdatingSources => (2, 0),
            WinGetImport::Importing => (1, 0),
            WinGetImport::Over => (0, 0),
        }
    }

    /// The reply this stage waits for.
    pub open spec fn awaiting(self) -> Awaiting {
        match self {
            WinGetImport::Start => Awaiting::Begin,
            WinGetImport::CheckingWinget => Awaiting::Flag,
            WinGetImport::CheckingConfig => Awaiting::Flag,
            WinGetImport::UpdatingSources => Awaiting::Ran,
            WinGetImport::Importing => Awaiting::Ran,
            WinGetImport::Over => Awaiting::Nothing,
        }
    }

    /// The reply this stage waits for.
    pub fn awaits(&self) -> (w: Awaiting)
        ensures
            w == self.awaiting(),
    {
        match self {
            WinGetImport::Start => Awaiting::Begin,
            WinGetImport::CheckingWinget => Awaiting::Flag,
            WinGetImport::CheckingConfig => Awaiting::Flag,
            WinGetImport::UpdatingSources => Awaiting::Ran,
            WinGetImport::Importing => Awaiting::Ran,
            WinGetImport::Over => Awaiting::Nothing,
        }
    }
}

/// `winget source update`, shown to the user.
pub open spec fn update_sources() -> EffectView {
    EffectView::RunInteractive("winget"@, seq!["source"@, "update"@])
}

/// One move of a WinGet import: update the sources (failure ignored), then
/// `winget import` the package list of `<root>/config`.
pub open spec fn winget_import_moves(root: Seq<char>, stage: WinGetImport, reply: Reply, next: WinGetImport, a: ActionView) -> bool {
    match (stage, reply) {
        (WinGetImport::Start, _) => next == WinGetImport::CheckingWinget && a == quiet(EffectView::CommandExists("winget"@)),
        (WinGetImport::CheckingWinget, Reply::Flag(false)) => next == WinGetImport::Over && a == quiet(fail(winget_missing())),
        (WinGetImport::CheckingWinget, Reply::Flag(true)) => next == WinGetImport::CheckingConfig && a == quiet(
            EffectView::PathExists(winget_config(root)),
        ),
        (WinGetImport::CheckingConfig, Reply::Flag(false)) => next == WinGetImport::Over && a == with_notes(
            seq![warning("WinGet config not found at "@ + winget_config(root))],
            done(),
        ),
        (WinGetImport::CheckingConfig, Reply::Flag(true)) => next == WinGetImport::UpdatingSources && a == with_notes(
            seq![info("Updating WinGet sources..."@)],
            update_sources(),
        ),
        (WinGetImport::UpdatingSources, Reply::Ran(_)) => next == WinGetImport::Importing && a == with_notes(
            seq![info("Installing WinGet packages..."@)],
            EffectView::RunInteractive(
                "winget"@,
                seq![
                    "import"@,
                    "-i"@,
                    winget_config(root),
                    "--accept-source-agreements"@,
                    "--accept-package-agreements"@,
                    "--ignore-unavailable"@,
                ],
            ),
        ),
        (WinGetImport::Importing, Reply::Ran(Err(e))) => next == WinGetImport::Over && a == quiet(fail(e@)),
        (WinGetImport::Importing, Reply::Ran(Ok(_))) => next == WinGetImport::Over && a == with_notes(
            seq![success("WinGet packages installed."@)],
            done(),
        ),
        _ => false,
    }
}

/// Progress of a WinGet upgrade.
pub enum WinGetUpgrade {
    Start,
    CheckingWinget,
    UpdatingSources,
    Listing,
    Upgrading,
    Over,
}

impl WinGetUpgrade {
    /// How far the upgrade is from its end: lower at every move.
    pub open spec fn rank(self) -> (nat, nat) {
        match self {
            WinGetUpgrade::Start => (5, 0),
            WinGetUpgrade::CheckingWinget => (4, 0),
            WinGetUpgrade::UpdatingSources => (3, 0),
            WinGetUpgrade::Listing => (2, 0),
            WinGetUpgrade::Upgrading => (1, 0),
            WinGetUpgrade::Over => (0, 0),
        }
    }

    /// The reply this stage waits for.
    pub open spec fn awaiting(self) -> Awaiting {
        match self {
            WinGetUpgrade::Start => Awaiting::Begin,
            WinGetUpgrade::CheckingWinget => Awaiting::Flag,
            WinGetUpgrade::UpdatingSources => Awaiting::Ran,
            WinGetUpgrade::Listing => Awaiting::Ran,
            WinGetUpgrade::Upgrading => Awaiting::Ran,
            WinGetUpgrade::Over => Awaiting::Nothing,
        }
    }

    /// The reply this stage waits for.
    pub fn awaits(&self) -> (w: Awaiting)
        ensures
            w == self.awaiting(),
    {
        match self {
            WinGetUpgrade::Start => Awaiting::Begin,
            WinGetUpgrade::CheckingWinget => Awaiting::Flag,
            WinGetUpgrade::UpdatingSources => Awaiting::Ran,
            WinGetUpgrade::Listing => Awaiting::Ran,
            WinGetUpgrade::Upgrading => Awaiting::Ran,
            WinGetUpgrade::Over => Awaiting::Nothing,
        }
    }
}

/// One move of a WinGet upgrade: update the sources and list the available
/// upgrades (failures ignored), then upgrade all packages.
pub open spec fn winget_upgrade_moves(stage: WinGetUpgrade, reply: Reply, next: WinGetUpgrade, a: ActionView) -> bool {
    match (stage, reply) {
        (WinGetUpgrade::Start, _) => next == WinGetUpgrade::CheckingWinget && a == quiet(EffectView::CommandExists("winget"@)),
        (WinGetUpgrade::CheckingWinget, Reply::Flag(false)) => next == WinGetUpgrade::Over && a == quiet(fail(winget_missing())),
        (WinGetUpgrade::CheckingWinget, Reply::Flag(true)) => next == WinGetUpgrade::UpdatingSources && a == with_notes(
            seq![info("Updating WinGet sources..."@)],
            update_sources(),
        ),
        (WinGetUpgrade::UpdatingSources, Reply::Ran(_)) => next == WinGetUpgrade::Listing && a == with_notes(
            seq![info("Checking for updates..."@)],
            EffectView::RunInteractive("winget"@, seq!["upgrade"@, "--include-unknown"@]),
        ),
        (WinGetUpgrade::Listing, Reply::Ran(_)) => next == WinGetUpgrade::Upgrading && a == with_notes(
            seq![info("Upgrading all packages..."@)],
            EffectView::RunInteractive(
                "winget"@,
                seq![
                    "upgrade"@,
                    "--all"@,
                    "--silent"@,
                    "--accept-source-agreements"@,
                    "--accept-package-agreements"@,
                ],
            ),
        ),
        (WinGetUpgrade::Upgrading, Reply::Ran(Err(e))) => next == WinGetUpgrade::Over && a == quiet(fail(e@)),
        (WinGetUpgrade::Upgrading, Reply::Ran(Ok(_))) => next == WinGetUpgrade::Over && a == with_notes(
            seq![success("WinGet packages upgraded."@)],
            done(),
        ),
        _ => false,
    }
}

fn config_dir_of(root: &str) -> (r: String)
    ensures
        r@ == config_dir(root@),
{
    join(root, "config")
}

fn winget_config_of(root: &str) -> (r: String)
    ensures
        r@ == winget_config(root@),
{
    let d = join(root, "config");
    join(d.as_str(), "winget-packages.json")
}

fn update_sources_action(note: &str) -> (a: Action)
    ensures
        a@ == with_notes(seq![info(note@)], update_sources()),
{
    let args = vec!["source", "update"];
                assert(crate::utils::shell::str_texts(args@) =~= seq!["source"@, "update"@]);
                let c = command_of("winget", args);
    Action::noted(Level::Info, owned(note), Effect::RunInteractive(c))
}

impl WinGet {
    /// The next move of a WinGet export.
    pub fn export_step(&self, root: &str, stage: WinGetExport, reply: Reply) -> (r: (WinGetExport, Action))
        requires
            answers(stage.awaiting(), reply),
            count_fits(reply),
        ensures
            winget_export_moves(root@, stage, reply, r.0, r.1@),
    {
        match (stage, reply) {
            (WinGetExport::Start, _) => (WinGetExport::CheckingWinget, Action::just(WinGet::is_available())),
            (WinGetExport::CheckingWinget, Reply::Flag(found)) => match self.ensure_available(found) {
                Err(e) => (WinGetExport::Over, Action::finish(Err(e))),
                Ok(()) => (WinGetExport::CreatingDir, Action::just(Effect::EnsureDir(config_dir_of(root)))),
            },
            (WinGetExport::CreatingDir, Reply::Done(Err(e))) => (WinGetExport::Over, Action::finish(Err(e))),
            (WinGetExport::CreatingDir, Reply::Done(Ok(()))) => (
                WinGetExport::LocatingTemp,
                Action::noted(
                    Level::Info,
                    owned("Exporting installed WinGet packages..."),
                    Effect::TempPath(owned("winget-export-temp.json")),
                ),
            ),
            (WinGetExport::LocatingTemp, Reply::Path(t)) => {
                let args = vec!["export", "-o", t.as_str(), "--accept-source-agreements"];
                assert(crate::utils::shell::str_texts(args@) =~= seq!["export"@, "-o"@, t@, "--accept-source-agreements"@]);
                let c = command_of("winget", args);
                (WinGetExport::Exporting { temp: t }, Action::just(Effect::Run(c)))
            },
            (WinGetExport::Exporting { temp }, Reply::Ran(Err(e))) => {
                let m = e.message();
                let text = concat("WinGet export warnings: ", m.as_str());
                let a = Action::noted(Level::Warning, text, Effect::PathExists(temp.clone()));
                (WinGetExport::CheckingTemp { temp }, a)
            },
            (WinGetExport::Exporting { temp }, Reply::Ran(Ok(_))) => {
                let a = Action::just(Effect::PathExists(temp.clone()));
                (WinGetExport::CheckingTemp { temp }, a)
            },
            (WinGetExport::CheckingTemp { .. }, Reply::Flag(false)) => (
                WinGetExport::Over,
                Action::noted(
                    Level::Warning,
                    owned("WinGet export failed - no output file created."),
                    Effect::Finish(Ok(())),
                ),
            ),
            (WinGetExport::CheckingTemp { temp }, Reply::Flag(true)) => {
                let a = Action::just(Effect::ReadFile(temp.clone()));
                (WinGetExport::Reading { temp }, a)
            },
            (WinGetExport::Reading { .. }, Reply::Text(Err(e))) => (WinGetExport::Over, Action::finish(Err(e))),
            (WinGetExport::Reading { temp }, Reply::Text(Ok(text))) => match parse_json(text.as_str()) {
                Err(e) => (WinGetExport::Over, Action::finish(Err(e))),
                Ok(doc) => {
                    let count = match count_packages(&doc) {
                        Some(n) => n,
                        None => {
                            assert(false);
                            0
                        },
                    };
                    let a = Action::just(Effect::WriteFile { path: winget_config_of(root), contents: text });
                    (WinGetExport::Writing { temp, count }, a)
                },
            },
            (WinGetExport::Writing { .. }, Reply::Done(Err(e))) => (WinGetExport::Over, Action::finish(Err(e))),
            (WinGetExport::Writing { temp, count }, Reply::Done(Ok(()))) => (
                WinGetExport::Removing { count },
                Action::just(Effect::RemoveFile(temp)),
            ),
            (WinGetExport::Removing { count }, Reply::Done(_)) => {
                let n = usize_text(count);
                let text = concat3("Exported ", n.as_str(), " WinGet packages to: winget-packages.json");
                (WinGetExport::Over, Action::noted(Level::Success, text, Effect::Finish(Ok(()))))
            },
            _ => {
                assert(false);
                (WinGetExport::Over, Action::finish(Ok(())))
            },
        }
    }

    /// The next move of a WinGet import.
    pub fn import_step(&self, root: &str, stage: WinGetImport, reply: Reply) -> (r: (WinGetImport, Action))
        requires
            answers(stage.awaiting(), reply),
        ensures
            winget_import_moves(root@, stage, reply, r.0, r.1@),
    {
        match (stage, reply) {
            (WinGetImport::Start, _) => (WinGetImport::CheckingWinget, Action::just(WinGet::is_available())),
            (WinGetImport::CheckingWinget, Reply::Flag(found)) => match self.ensure_available(found) {
                Err(e) => (WinGetImport::Over, Action::finish(Err(e))),
                Ok(()) => (WinGetImport::CheckingConfig, Action::just(Effect::PathExists(winget_config_of(root)))),
            },
            (WinGetImport::CheckingConfig, Reply::Flag(false)) => {
                let cfg = winget_config_of(root);
                let text = concat("WinGet config not found at ", cfg.as_str());
                (WinGetImport::Over, Action::noted(Level::Warning, text, Effect::Finish(Ok(()))))
            },
            (WinGetImport::CheckingConfig, Reply::Flag(true)) => (
                WinGetImport::UpdatingSources,
                update_sources_action("Updating WinGet sources..."),
            ),
            (WinGetImport::UpdatingSources, Reply::Ran(_)) => {
                let cfg = winget_config_of(root);
                let args = vec!["import",
                        "-i",
                        cfg.as_str(),
                        "--accept-source-agreements",
                        "--accept-package-agreements",
                        "--ignore-unavailable"];
                assert(crate::utils::shell::str_texts(args@) =~= seq![
                    "import"@,
                    "-i"@,
                    cfg@,
                    "--accept-source-agreements"@,
                    "--accept-package-agreements"@,
                    "--ignore-unavailable"@,
                ]);
                let c = command_of("winget", args);
                (
                    WinGetImport::Importing,
                    Action::noted(Level::Info, owned("Installing WinGet packages..."), Effect::RunInteractive(c)),
                )
            },
            (WinGetImport::Importing, Reply::Ran(Err(e))) => (WinGetImport::Over, Action::finish(Err(e))),
            (WinGetImport::Importing, Reply::Ran(Ok(_))) => (
                WinGetImport::Over,
                Action::noted(Level::Success, owned("WinGet packages installed."), Effect::Finish(Ok(()))),
            ),
            _ => {
                assert(false);
                (WinGetImport::Over, Action::finish(Ok(())))
            },
        }
    }

    /// The next move of a WinGet upgrade.
    pub fn upgrade_step(&self, stage: WinGetUpgrade, reply: Reply) -> (r: (WinGetUpgrade, Action))
        requires
            answers(stage.awaiting(), reply),
        ensures
            winget_upgrade_moves(stage, reply, r.0, r.1@),
    {
        match (stage, reply) {
            (WinGetUpgrade::Start, _) => (WinGetUpgrade::CheckingWinget, Action::just(WinGet::is_available())),
            (WinGetUpgrade::CheckingWinget, Reply::Flag(found)) => match self.ensure_available(found) {
                Err(e) => (WinGetUpgrade::Over, Action::finish(Err(e))),
                Ok(()) => (WinGetUpgrade::UpdatingSources, update_sources_action("Updating WinGet sources...")),
            },
            (WinGetUpgrade::UpdatingSources, Reply::Ran(_)) => {
                let args = vec!["upgrade", "--include-unknown"];
                assert(crate::utils::shell::str_texts(args@) =~= seq![
                    "upgrade"@,
                    "--include-unknown"@,
                ]);
                let c = command_of("winget", args);
                (
                    WinGetUpgrade::Listing,
                    Action::noted(Level::Info, owned("Checking for updates..."), Effect::RunInteractive(c)),
                )
            },
            (WinGetUpgrade::Listing, Reply::Ran(_)) => {
                let args = vec!["upgrade", "--all", "--silent", "--accept-source-agreements", "--accept-package-agreements"];
                assert(crate::utils::shell::str_texts(args@) =~= seq![
                    "upgrade"@,
                    "--all"@,
                    "--silent"@,
                    "--accept-source-agreements"@,
                    "--accept-package-agreements"@,
                ]);
                let c = command_of("winget", args);
                (
                    WinGetUpgrade::Upgrading,
                    Action::noted(Level::Info, owned("Upgrading all packages..."), Effect::RunInteractive(c)),
                )
            },
            (WinGetUpgrade::Upgrading, Reply::Ran(Err(e))) => (WinGetUpgrade::Over, Action::finish(Err(e))),
            (WinGetUpgrade::Upgrading, Reply::Ran(Ok(_))) => (
                WinGetUpgrade::Over,
                Action::noted(Level::Success, owned("WinGet packages upgraded."), Effect::Finish(Ok(()))),
            ),
            _ => {
                assert(false);
                (WinGetUpgrade::Over, Action::finish(Ok(())))
            },
        }
    }
}

/// WinGet is known to be installed at this stage of an export.
pub open spec fn export_found(s: WinGetExport) -> bool {
    !(s is Start || s is CheckingWinget || s is Over)
}

/// WinGet is known to be installed at this stage of an import.
pub open spec fn import_found(s: WinGetImport) -> bool {
    !(s is Start || s is CheckingWinget || s is Over)
}

/// WinGet is known to be installed at this stage of an upgrade.
pub open spec fn upgrade_found(s: WinGetUpgrade) -> bool {
    !(s is Start || s is CheckingWinget || s is Over)
}

/// An export runs `winget` only once it has found it installed: each move that
/// runs it answers the check with yes or starts from a stage past the check,
/// and such a stage is reached only from another one or from that answer.
pub proof fn lemma_export_checks_winget(root: Seq<char>, stage: WinGetExport, reply: Reply, next: WinGetExport, a: ActionView)
    requires
        winget_export_moves(root, stage, reply, next, a),
    ensures
        runs_program(a.effect, "winget"@) ==> export_found(stage) || (stage is CheckingWinget && reply == Reply::Flag(true)),
        export_found(next) ==> export_found(stage) || (stage is CheckingWinget && reply == Reply::Flag(true)),
{
}

/// An import runs `winget` only once it has found it installed (as for an export).
pub proof fn lemma_import_checks_winget(root: Seq<char>, stage: WinGetImport, reply: Reply, next: WinGetImport, a: ActionView)
    requires
        winget_import_moves(root, stage, reply, next, a),
    ensures
        runs_program(a.effect, "winget"@) ==> import_found(stage) || (stage is CheckingWinget && reply == Reply::Flag(true)),
        import_found(next) ==> import_found(stage) || (stage is CheckingWinget && reply == Reply::Flag(true)),
{
}

/// An upgrade runs `winget` only once it has found it installed (as for an export).
pub proof fn lemma_upgrade_checks_winget(stage: WinGetUpgrade, reply: Reply, next: WinGetUpgrade, a: ActionView)
    requires
        winget_upgrade_moves(stage, reply, next, a),
    ensures
        runs_program(a.effect, "winget"@) ==> upgrade_found(stage) || (stage is CheckingWinget && reply == Reply::Flag(true)),
        upgrade_found(next) ==> upgrade_found(stage) || (stage is CheckingWinget && reply == Reply::Flag(true)),
{
}

/// A WinGet export creates and overwrites files only below the config root.
pub proof fn lemma_export_inside_root(root: Seq<char>, stage: WinGetExport, reply: Reply, next: WinGetExport, a: ActionView)
    requires
        winget_export_moves(root, stage, reply, next, a),
    ensures
        written(a.effect) is Some ==> under(root, written(a.effect)->0),
{
    reveal_strlit("config");
    reveal_strlit("winget-packages.json");
    lemma_joined2_under(root, "config"@, "winget-packages.json"@);
}

/// A WinGet import installs the package list kept in the configuration: its
/// one `winget import` reads `<root>\config\winget-packages.json`, accepting
/// the agreements and skipping unavailable packages, after the sources were
/// updated.
pub proof fn lemma_import_installs_the_list(root: Seq<char>, stage: WinGetImport, reply: Reply, next: WinGetImport, a: ActionView)
    requires
        winget_import_moves(root, stage, reply, next, a),
    ensures
        next == WinGetImport::Importing ==> {
            &&& stage == WinGetImport::UpdatingSources
            &&& a.effect == EffectView::RunInteractive(
                "winget"@,
                seq![
                    "import"@,
                    "-i"@,
                    joined(joined(root, "config"@), "winget-packages.json"@),
                    "--accept-source-agreements"@,
                    "--accept-package-agreements"@,
                    "--ignore-unavailable"@,
                ],
            )
        },
        next == WinGetImport::UpdatingSources ==> a.effect == EffectView::RunInteractive("winget"@, seq!["source"@, "update"@]),
{
}

} // verus!
