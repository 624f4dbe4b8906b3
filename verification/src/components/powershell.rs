//! PowerShell profile component.

use crate::components::effects::{
    answers, done, fail, info, quiet, success, warning, with_notes, Action, ActionView, Awaiting, Effect,
    EffectView, Level, Reply, written,
};
use crate::error::ErrorView;
use crate::text::{concat, owned};
use crate::utils::paths::{
    join, joined, lemma_joined2_under, lemma_joined_under, lemma_under_transitive, under, powershell_profile_location, powershell_profile_path,
};
use vstd::prelude::*;

verus! {

/// PowerShell profile component.
pub struct PowerShell {
    /// Path to the repository root (for default profile fallback).
    pub repo_root: Option<String>,
}

impl PowerShell {
    pub fn new() -> (p: Self)
        ensures
            p.repo_root is None,
    {
        PowerShell { repo_root: None }
    }

    pub fn with_repo_root(repo_root: &str) -> (p: Self)
        ensures
            p.repo_root matches Some(r) && r@ == repo_root@,
    {
        PowerShell { repo_root: Some(owned(repo_root)) }
    }
}

impl Default for PowerShell {
    fn default() -> (p: Self)
        ensures
            p.repo_root is None,
    {
        PowerShell::new()
    }
}

impl Clone for PowerShell {
    fn clone(&self) -> (r: Self)
        ensures
            r == *self,
    {
        PowerShell { repo_root: self.repo_root.clone() }
    }
}

/// The profile's file name.
pub open spec fn profile_file() -> Seq<char> {
    "Microsoft.PowerShell_profile.ps1"@
}

/// `<root>/dotfiles/powershell`.
pub open spec fn powershell_dotfiles(root: Seq<char>) -> Seq<char> {
    joined(joined(root, "dotfiles"@), "powershell"@)
}

/// `<root>/dotfiles/powershell/Microsoft.PowerShell_profile.ps1`.
pub open spec fn dotfile_profile(root: Seq<char>) -> Seq<char> {
    joined(powershell_dotfiles(root), profile_file())
}

/// Progress of a PowerShell profile export.
pub enum PowerShellExport {
    Start,
    CreatingDir,
    CheckingProfile { profile: String },
    CheckingDefault { profile: String, default: String },
    CopyingProfile,
    CopyingDefault,
    Over,
}

impl PowerShellExport {
    /// How far the export is from its end: lower at every move.
    pub open spec fn rank(self) -> (nat, nat) {
        match self {
            PowerShellExport::Start => (5, 0),
            PowerShellExport::CreatingDir => (4, 0),
            PowerShellExport::CheckingProfile { .. } => (3, 0),
            PowerShellExport::CheckingDefault { .. } => (2, 0),
            PowerShellExport::CopyingProfile => (1, 0),
            PowerShellExport::CopyingDefault => (1, 0),
            PowerShellExport::Over => (0, 0),
        }
    }

    /// The reply this stage waits for.
    pub open spec fn awaiting(self) -> Awaiting {
        match self {
            PowerShellExport::Start => Awaiting::Begin,
            PowerShellExport::CreatingDir => Awaiting::Done,
            PowerShellExport::CheckingProfile { .. } => Awaiting::Flag,
            PowerShellExport::CheckingDefault { .. } => Awaiting::Flag,
            PowerShellExport::CopyingProfile => Awaiting::Done,
            PowerShellExport::CopyingDefault => Awaiting::Done,
            PowerShellExport::Over => Awaiting::Nothing,
        }
    }

    /// The reply this stage waits for.
    pub fn awaits(&self) -> (w: Awaiting)
        ensures
            w == self.awaiting(),
    {
        match self {
            PowerShellExport::Start => Awaiting::Begin,
            PowerShellExport::CreatingDir => Awaiting::Done,
            PowerShellExport::CheckingProfile { .. } => Awaiting::Flag,
            PowerShellExport::CheckingDefault { .. } => Awaiting::Flag,
            PowerShellExport::CopyingProfile => Awaiting::Done,
            PowerShellExport::CopyingDefault => Awaiting::Done,
            PowerShellExport::Over => Awaiting::Nothing,
        }
    }
}

/// One move of a PowerShell profile export: copy the user's profile into
/// `<root>/dotfiles/powershell`; without one, copy the repository's default
/// profile when a repository root is known and has one; else warn.
pub open spec fn powershell_export_moves(
    ps: PowerShell,
    root: Seq<char>,
    stage: PowerShellExport,
    reply: Reply,
    next: PowerShellExport,
    a: ActionView,
) -> bool {
    match (stage, reply) {
        (PowerShellExport::Start, _) => next == PowerShellExport::CreatingDir && a == quiet(
            EffectView::EnsureDir(powershell_dotfiles(root)),
        ),
        (PowerShellExport::CreatingDir, Reply::Done(Err(e))) => next == PowerShellExport::Over && a == quiet(fail(e@)),
        (PowerShellExport::CreatingDir, Reply::Done(Ok(()))) => {
            ||| next == PowerShellExport::Over && a == quiet(
                fail(ErrorView::Path("Could not determine Documents directory"@)),
            )
            ||| next matches PowerShellExport::CheckingProfile { profile }
                && (exists|docs: Seq<char>| profile@ == joined(joined(docs, "PowerShell"@), profile_file()))
                && a == quiet(EffectView::PathExists(profile@))
        },
        (PowerShellExport::CheckingProfile { profile }, Reply::Flag(true)) => next == PowerShellExport::CopyingProfile
            && a == quiet(EffectView::CopyFile(profile@, dotfile_profile(root))),
        (PowerShellExport::CheckingProfile { profile }, Reply::Flag(false)) => match ps.repo_root {
            Some(repo) => next matches PowerShellExport::CheckingDefault { profile: p, default }
                && p == profile && default@ == dotfile_profile(repo@)
                && a == quiet(EffectView::PathExists(default@)),
            None => next == PowerShellExport::Over && a == with_notes(
                seq![warning("PowerShell profile not found at "@ + profile@)],
                done(),
            ),
        },
        (PowerShellExport::CheckingDefault { default, .. }, Reply::Flag(true)) => next == PowerShellExport::CopyingDefault
            && a == quiet(EffectView::CopyFile(default@, dotfile_profile(root))),
        (PowerShellExport::CheckingDefault { profile, .. }, Reply::Flag(false)) => next == PowerShellExport::Over && a
            == with_notes(
            seq![warning("PowerShell profile not found at "@ + profile@ + " and no default in repo."@)],
            done(),
        ),
        (PowerShellExport::CopyingProfile, Reply::Done(Err(e))) => next == PowerShellExport::Over && a == quiet(fail(e@)),
        (PowerShellExport::CopyingProfile, Reply::Done(Ok(()))) => next == PowerShellExport::Over && a == with_notes(
            seq![success("Exported PowerShell profile"@)],
            done(),
        ),
        (PowerShellExport::CopyingDefault, Reply::Done(Err(e))) => next == PowerShellExport::Over && a == quiet(fail(e@)),
        (PowerShellExport::CopyingDefault, Reply::Done(Ok(()))) => next == PowerShellExport::Over && a == with_notes(
            seq![info("No user profile found. Exported default profile from repo."@)],
            done(),
        ),
        _ => false,
    }
}

/// Progress of a PowerShell profile import.
pub enum PowerShellImport {
    Start,
    CheckingSource,
    CreatingProfileDir { profile: String },
    Copying,
    Over,
}

impl PowerShellImport {
    /// How far the import is from its end: lower at every move.
    pub open spec fn rank(self) -> (nat, nat) {
        match self {
            PowerShellImport::Start => (4, 0),
            PowerShellImport::CheckingSource => (3, 0),
            PowerShellImport::CreatingProfileDir { .. } => (2, 0),
            PowerShellImport::Copying => (1, 0),
            PowerShellImport::Over => (0, 0),
        }
    }

    /// The reply this stage waits for.
    pub open spec fn awaiting(self) -> Awaiting {
        match self {
            PowerShellImport::Start => Awaiting::Begin,
            PowerShellImport::CheckingSource => Awaiting::Flag,
            PowerShellImport::CreatingProfileDir { .. } => Awaiting::Done,
            PowerShellImport::Copying => Awaiting::Done,
            PowerShellImport::Over => Awaiting::Nothing,
        }
    }

    /// The reply this stage waits for.
    pub fn awaits(&self) -> (w: Awaiting)
        ensures
            w == self.awaiting(),
    {
        match self {
            PowerShellImport::Start => Awaiting::Begin,
            PowerShellImport::CheckingSource => Awaiting::Flag,
            PowerShellImport::CreatingProfileDir { .. } => Awaiting::Done,
            PowerShellImport::Copying => Awaiting::Done,
            PowerShellImport::Over => Awaiting::Nothing,
        }
    }
}

/// One move of a PowerShell profile import: copy the dotfile profile over the
/// user's profile, creating the profile's directory first; warn when the
/// repository has no profile.
pub open spec fn powershell_import_moves(
    root: Seq<char>,
    stage: PowerShellImport,
    reply: Reply,
    next: PowerShellImport,
    a: ActionView,
) -> bool {
    match (stage, reply) {
        (PowerShellImport::Start, _) => next == PowerShellImport::CheckingSource && a == quiet(
            EffectView::PathExists(dotfile_profile(root)),
        ),
        (PowerShellImport::CheckingSource, Reply::Flag(false)) => next == PowerShellImport::Over && a == with_notes(
            seq![warning("PowerShell profile dotfile not found at "@ + dotfile_profile(root))],
            done(),
        ),
        (PowerShellImport::CheckingSource, Reply::Flag(true)) => {
            ||| next == PowerShellImport::Over && a == quiet(
                fail(ErrorView::Path("Could not determine Documents directory"@)),
            )
            ||| {
                &&& next is CreatingProfileDir
                &&& a.notes == Seq::<(Level, Seq<char>)>::empty()
                &&& a.effect is EnsureDir
                &&& exists|docs: Seq<char>| a.effect->EnsureDir_0 == joined(docs, "PowerShell"@)
                &&& next->profile@ == joined(a.effect->EnsureDir_0, profile_file())
            }
        },
        (PowerShellImport::CreatingProfileDir { .. }, Reply::Done(Err(e))) => next == PowerShellImport::Over && a == quiet(fail(e@)),
        (PowerShellImport::CreatingProfileDir { profile }, Reply::Done(Ok(()))) => next == PowerShellImport::Copying && a
            == with_notes(
            seq![info("Copying PowerShell profile to: "@ + profile@)],
            EffectView::CopyFile(dotfile_profile(root), profile@),
        ),
        (PowerShellImport::Copying, Reply::Done(Err(e))) => next == PowerShellImport::Over && a == quiet(fail(e@)),
        (PowerShellImport::Copying, Reply::Done(Ok(()))) => next == PowerShellImport::Over && a == with_notes(
            seq![success("PowerShell profile applied. Open a new terminal to load it."@)],
            done(),
        ),
        _ => false,
    }
}

/// `<root>/dotfiles/powershell/Microsoft.PowerShell_profile.ps1`.
fn dotfile_profile_of(root: &str) -> (r: String)
    ensures
        r@ == dotfile_profile(root@),
{
    let d = join(root, "dotfiles");
    let d = join(d.as_str(), "powershell");
    join(d.as_str(), "Microsoft.PowerShell_profile.ps1")
}

impl PowerShell {
    /// The next move of a PowerShell profile export.
    pub fn export_step(&self, root: &str, stage: PowerShellExport, reply: Reply) -> (r: (PowerShellExport, Action))
        requires
            answers(stage.awaiting(), reply),
        ensures
            powershell_export_moves(*self, root@, stage, reply, r.0, r.1@),
    {
        match (stage, reply) {
            (PowerShellExport::Start, _) => {
                let d = join(root, "dotfiles");
                let d = join(d.as_str(), "powershell");
                (PowerShellExport::CreatingDir, Action::just(Effect::EnsureDir(d)))
            },
            (PowerShellExport::CreatingDir, Reply::Done(Err(e))) => (PowerShellExport::Over, Action::finish(Err(e))),
            (PowerShellExport::CreatingDir, Reply::Done(Ok(()))) => match powershell_profile_path() {
                Err(e) => (PowerShellExport::Over, Action::finish(Err(e))),
                Ok(profile) => {
                    let a = Action::just(Effect::PathExists(profile.clone()));
                    (PowerShellExport::CheckingProfile { profile }, a)
                },
            },
            (PowerShellExport::CheckingProfile { profile }, Reply::Flag(true)) => (
                PowerShellExport::CopyingProfile,
                Action::just(Effect::CopyFile { from: profile, to: dotfile_profile_of(root) }),
            ),
            (PowerShellExport::CheckingProfile { profile }, Reply::Flag(false)) => match &self.repo_root {
                Some(repo) => {
                    let default = dotfile_profile_of(repo.as_str());
                    let a = Action::just(Effect::PathExists(default.clone()));
                    (PowerShellExport::CheckingDefault { profile, default }, a)
                },
                None => {
                    let text = concat("PowerShell profile not found at ", profile.as_str());
                    (PowerShellExport::Over, Action::noted(Level::Warning, text, Effect::Finish(Ok(()))))
                },
            },
            (PowerShellExport::CheckingDefault { default, .. }, Reply::Flag(true)) => (
                PowerShellExport::CopyingDefault,
                Action::just(Effect::CopyFile { from: default, to: dotfile_profile_of(root) }),
            ),
            (PowerShellExport::CheckingDefault { profile, .. }, Reply::Flag(false)) => {
                let mut text = concat("PowerShell profile not found at ", profile.as_str());
                text.append(" and no default in repo.");
                (PowerShellExport::Over, Action::noted(Level::Warning, text, Effect::Finish(Ok(()))))
            },
            (PowerShellExport::CopyingProfile, Reply::Done(Err(e))) => (PowerShellExport::Over, Action::finish(Err(e))),
            (PowerShellExport::CopyingProfile, Reply::Done(Ok(()))) => (
                PowerShellExport::Over,
                Action::noted(Level::Success, owned("Exported PowerShell profile"), Effect::Finish(Ok(()))),
            ),
            (PowerShellExport::CopyingDefault, Reply::Done(Err(e))) => (PowerShellExport::Over, Action::finish(Err(e))),
            (PowerShellExport::CopyingDefault, Reply::Done(Ok(()))) => (
                PowerShellExport::Over,
                Action::noted(
                    Level::Info,
                    owned("No user profile found. Exported default profile from repo."),
                    Effect::Finish(Ok(())),
                ),
            ),
            _ => {
                assert(false);
                (PowerShellExport::Over, Action::finish(Ok(())))
            },
        }
    }

    /// The next move of a PowerShell profile import.
    pub fn import_step(&self, root: &str, stage: PowerShellImport, reply: Reply) -> (r: (PowerShellImport, Action))
        requires
            answers(stage.awaiting(), reply),
        ensures
            powershell_import_moves(root@, stage, reply, r.0, r.1@),
    {
        match (stage, reply) {
            (PowerShellImport::Start, _) => (
                PowerShellImport::CheckingSource,
                Action::just(Effect::PathExists(dotfile_profile_of(root))),
            ),
            (PowerShellImport::CheckingSource, Reply::Flag(false)) => {
                let src = dotfile_profile_of(root);
                let text = concat("PowerShell profile dotfile not found at ", src.as_str());
                (PowerShellImport::Over, Action::noted(Level::Warning, text, Effect::Finish(Ok(()))))
            },
            (PowerShellImport::CheckingSource, Reply::Flag(true)) => match powershell_profile_location() {
                Err(e) => (PowerShellImport::Over, Action::finish(Err(e))),
                Ok((dir, profile)) => {
                    let ghost d = dir@;
                    let a = Action::just(Effect::EnsureDir(dir));
                    let next = PowerShellImport::CreatingProfileDir { profile };
                    assert(a@.notes =~= Seq::<(Level, Seq<char>)>::empty());
                    (next, a)
                },
            },
            (PowerShellImport::CreatingProfileDir { .. }, Reply::Done(Err(e))) => (
                PowerShellImport::Over,
                Action::finish(Err(e)),
            ),
            (PowerShellImport::CreatingProfileDir { profile }, Reply::Done(Ok(()))) => {
                let text = concat("Copying PowerShell profile to: ", profile.as_str());
                let src = dotfile_profile_of(root);
                (
                    PowerShellImport::Copying,
                    Action::noted(Level::Info, text, Effect::CopyFile { from: src, to: profile }),
                )
            },
            (PowerShellImport::Copying, Reply::Done(Err(e))) => (PowerShellImport::Over, Action::finish(Err(e))),
            (PowerShellImport::Copying, Reply::Done(Ok(()))) => (
                PowerShellImport::Over,
                Action::noted(
                    Level::Success,
                    owned("PowerShell profile applied. Open a new terminal to load it."),
                    Effect::Finish(Ok(())),
                ),
            ),
            _ => {
                assert(false);
                (PowerShellImport::Over, Action::finish(Ok(())))
            },
        }
    }
}

/// A PowerShell export creates and overwrites files only below the config root.
pub proof fn lemma_export_inside_root(
    ps: PowerShell,
    root: Seq<char>,
    stage: PowerShellExport,
    reply: Reply,
    next: PowerShellExport,
    a: ActionView,
)
    requires
        powershell_export_moves(ps, root, stage, reply, next, a),
    ensures
        written(a.effect) is Some ==> under(root, written(a.effect)->0),
{
    reveal_strlit("dotfiles");
    reveal_strlit("powershell");
    reveal_strlit("Microsoft.PowerShell_profile.ps1");
    lemma_joined2_under(root, "dotfiles"@, "powershell"@);
    lemma_joined_under(powershell_dotfiles(root), profile_file());
    lemma_under_transitive(root, powershell_dotfiles(root), dotfile_profile(root));
}

/// A PowerShell import applies the profile kept in the configuration: its only
/// copy reads `<root>\dotfiles\powershell\Microsoft.PowerShell_profile.ps1` and
/// writes the user's profile, which is `Microsoft.PowerShell_profile.ps1` in the
/// `PowerShell` folder of a Documents directory, a folder the import first
/// made sure exists.
pub proof fn lemma_import_applies_profile(root: Seq<char>, stage: PowerShellImport, reply: Reply, next: PowerShellImport, a: ActionView)
    requires
        powershell_import_moves(root, stage, reply, next, a),
    ensures
        a.effect matches EffectView::CopyFile(from, to) ==> {
            &&& from == joined(joined(joined(root, "dotfiles"@), "powershell"@), "Microsoft.PowerShell_profile.ps1"@)
            &&& stage matches PowerShellImport::CreatingProfileDir { profile }
            &&& to == profile@
            &&& reply matches Reply::Done(Ok(_))
        },
        next matches PowerShellImport::CreatingProfileDir { profile } ==> {
            &&& a.effect matches EffectView::EnsureDir(dir)
            &&& profile@ == joined(dir, "Microsoft.PowerShell_profile.ps1"@)
            &&& exists|docs: Seq<char>| dir == joined(docs, "PowerShell"@)
        },
{
}

} // verus!
