//! Git configuration component.

use crate::components::effects::{
    answers, done, fail, info, quiet, success, warning, with_notes, Action, ActionView, Awaiting, Effect,
    EffectView, Level, Note, Reply, runs_program, written,
};
use crate::error::ErrorView;
use crate::text::owned;
use crate::utils::paths::{
    git_config_path, join, joined, lemma_joined2_under, lemma_joined_under, lemma_under_transitive, under,
};
use crate::utils::shell::{arg_texts, CommandSpec};
use vstd::prelude::*;

verus! {

/// Git configuration component.
pub struct Git;

impl Git {
    pub fn new() -> Self {
        Git
    }
}

impl Default for Git {
    fn default() -> (g: Self)
        ensures
            g == Git,
    {
        Git::new()
    }
}

/// `<root>/dotfiles/git`.
pub open spec fn git_dotfiles(root: Seq<char>) -> Seq<char> {
    joined(joined(root, "dotfiles"@), "git"@)
}

/// Progress of a Git export.
pub enum GitExport {
    Start,
    CreatingDir,
    CheckingConfig { config: String },
    Copying,
    Over,
}

impl GitExport {
    /// How far the export is from its end: lower at every move.
    pub open spec fn rank(self) -> (nat, nat) {
        match self {
            GitExport::Start => (4, 0),
            GitExport::CreatingDir => (3, 0),
            GitExport::CheckingConfig { .. } => (2, 0),
            GitExport::Copying => (1, 0),
            GitExport::Over => (0, 0),
        }
    }

    /// The reply this stage waits for.
    pub open spec fn awaiting(self) -> Awaiting {
        match self {
            GitExport::Start => Awaiting::Begin,
            GitExport::CreatingDir => Awaiting::Done,
            GitExport::CheckingConfig { .. } => Awaiting::Flag,
            GitExport::Copying => Awaiting::Done,
            GitExport::Over => Awaiting::Nothing,
        }
    }

    /// The reply this stage waits for.
    pub fn awaits(&self) -> (w: Awaiting)
        ensures
            w == self.awaiting(),
    {
        match self {
            GitExport::Start => Awaiting::Begin,
            GitExport::CreatingDir => Awaiting::Done,
            GitExport::CheckingConfig { .. } => Awaiting::Flag,
            GitExport::Copying => Awaiting::Done,
            GitExport::Over => Awaiting::Nothing,
        }
    }
}

/// One move of a Git export: copy the global `.gitconfig` into
/// `<root>/dotfiles/git`, or warn that there is none.
pub open spec fn git_export_moves(root: Seq<char>, stage: GitExport, reply: Reply, next: GitExport, a: ActionView) -> bool {
    match (stage, reply) {
        (GitExport::Start, _) => next == GitExport::CreatingDir && a == quiet(EffectView::EnsureDir(git_dotfiles(root))),
        (GitExport::CreatingDir, Reply::Done(Err(e))) => next == GitExport::Over && a == quiet(fail(e@)),
        (GitExport::CreatingDir, Reply::Done(Ok(()))) => {
            ||| next == GitExport::Over && a == quiet(fail(ErrorView::Path("Could not determine home directory"@)))
            ||| next matches GitExport::CheckingConfig { config } && (exists|home: Seq<char>| config@ == joined(home, ".gitconfig"@))
                && a == quiet(EffectView::PathExists(config@))
        },
        (GitExport::CheckingConfig { config }, Reply::Flag(true)) => next == GitExport::Copying && a == quiet(
            EffectView::CopyFile(config@, joined(git_dotfiles(root), ".gitconfig"@)),
        ),
        (GitExport::CheckingConfig { .. }, Reply::Flag(false)) => next == GitExport::Over && a == with_notes(
            seq![warning("Global .gitconfig not found"@)],
            done(),
        ),
        (GitExport::Copying, Reply::Done(Err(e))) => next == GitExport::Over && a == quiet(fail(e@)),
        (GitExport::Copying, Reply::Done(Ok(()))) => next == GitExport::Over && a == with_notes(
            seq![success("Exported .gitconfig"@)],
            done(),
        ),
        _ => false,
    }
}

/// The global settings the import applies, in order.
pub open spec fn git_default(i: int) -> (Seq<char>, Seq<char>) {
    if i == 0 {
        ("init.defaultBranch"@, "main"@)
    } else if i == 1 {
        ("fetch.prune"@, "true"@)
    } else if i == 2 {
        ("pull.rebase"@, "false"@)
    } else if i == 3 {
        ("core.autocrlf"@, "false"@)
    } else {
        ("credential.helper"@, "manager"@)
    }
}

/// The number of default settings.
pub open spec fn git_default_count() -> int {
    5
}

/// `git config --global <key> <value>`.
pub open spec fn git_set(key: Seq<char>, value: Seq<char>) -> EffectView {
    EffectView::Run("git"@, seq!["config"@, "--global"@, key, value])
}

/// `<root>/dotfiles/git/.gitconfig`.
pub open spec fn dotfiles_gitconfig(root: Seq<char>) -> Seq<char> {
    joined(git_dotfiles(root), ".gitconfig"@)
}

/// Progress of a Git import.
pub enum GitImport {
    Start,
    CheckingGit,
    CheckingDotfile,
    Including,
    Setting { index: usize },
    Over,
}

impl GitImport {
    /// How far the import is from its end: lower at every move.
    pub open spec fn rank(self) -> (nat, nat) {
        match self {
            GitImport::Start => (9, 0),
            GitImport::CheckingGit => (8, 0),
            GitImport::CheckingDotfile => (7, 0),
            GitImport::Including => (6, 0),
            GitImport::Setting { index } => (if index < 5 { (5 - index) as nat } else { 1 }, 0),
            GitImport::Over => (0, 0),
        }
    }

    /// The reply this stage waits for.
    pub open spec fn awaiting(self) -> Awaiting {
        match self {
            GitImport::Start => Awaiting::Begin,
            GitImport::CheckingGit => Awaiting::Flag,
            GitImport::CheckingDotfile => Awaiting::Flag,
            GitImport::Including => Awaiting::Ran,
            GitImport::Setting { .. } => Awaiting::Ran,
            GitImport::Over => Awaiting::Nothing,
        }
    }

    /// The reply this stage waits for.
    pub fn awaits(&self) -> (w: Awaiting)
        ensures
            w == self.awaiting(),
    {
        match self {
            GitImport::Start => Awaiting::Begin,
            GitImport::CheckingGit => Awaiting::Flag,
            GitImport::CheckingDotfile => Awaiting::Flag,
            GitImport::Including => Awaiting::Ran,
            GitImport::Setting { .. } => Awaiting::Ran,
            GitImport::Over => Awaiting::Nothing,
        }
    }
}

/// The closing messages of a Git import.
pub open spec fn git_import_closing() -> Seq<(Level, Seq<char>)> {
    seq![
        success("Git defaults applied."@),
        info("Set identity if not set:"@),
        info("  git config --global user.name \"Your Name\""@),
        info("  git config --global user.email \"you@company.com\""@),
    ]
}

/// What follows the include step or a default setting: the next default, or the end.
pub open spec fn git_after_setting(i: int, next: GitImport, a: ActionView) -> bool {
    if i < git_default_count() {
        next == (GitImport::Setting { index: i as usize }) && a == quiet(git_set(git_default(i).0, git_default(i).1))
    } else {
        next == GitImport::Over && a == with_notes(git_import_closing(), done())
    }
}

/// One move of a Git import: when git is installed, include the dotfiles
/// gitconfig if there is one, then apply the default settings (their failures
/// ignored).
pub open spec fn git_import_moves(root: Seq<char>, stage: GitImport, reply: Reply, next: GitImport, a: ActionView) -> bool {
    match (stage, reply) {
        (GitImport::Start, _) => next == GitImport::CheckingGit && a == quiet(EffectView::CommandExists("git"@)),
        (GitImport::CheckingGit, Reply::Flag(false)) => next == GitImport::Over && a == with_notes(
            seq![warning("Git not found. Skipping."@)],
            done(),
        ),
        (GitImport::CheckingGit, Reply::Flag(true)) => next == GitImport::CheckingDotfile && a == quiet(
            EffectView::PathExists(dotfiles_gitconfig(root)),
        ),
        (GitImport::CheckingDotfile, Reply::Flag(true)) => next == GitImport::Including && a == with_notes(
            seq![info("Applying dotfiles gitconfig include..."@)],
            git_set("include.path"@, dotfiles_gitconfig(root)),
        ),
        (GitImport::CheckingDotfile, Reply::Flag(false)) => git_after_setting(0, next, a),
        (GitImport::Including, Reply::Ran(Err(e))) => next == GitImport::Over && a == quiet(fail(e@)),
        (GitImport::Including, Reply::Ran(Ok(_))) => git_after_setting(0, next, a),
        (GitImport::Setting { index }, Reply::Ran(_)) => git_after_setting(index + 1, next, a),
        _ => false,
    }
}

/// `git config --global <key> <value>`.
fn git_set_command(key: &str, value: &str) -> (c: CommandSpec)
    ensures
        EffectView::Run(c.program@, arg_texts(c.args)) == git_set(key@, value@),
{
    let c = CommandSpec {
        program: owned("git"),
        args: vec![owned("config"), owned("--global"), owned(key), owned(value)],
    };
    assert(arg_texts(c.args) =~= seq!["config"@, "--global"@, key@, value@]);
    c
}

/// The default setting at `i`.
fn git_default_at(i: usize) -> (r: (&'static str, &'static str))
    requires
        i < 5,
    ensures
        (r.0@, r.1@) == git_default(i as int),
{
    if i == 0 {
        ("init.defaultBranch", "main")
    } else if i == 1 {
        ("fetch.prune", "true")
    } else if i == 2 {
        ("pull.rebase", "false")
    } else if i == 3 {
        ("core.autocrlf", "false")
    } else {
        ("credential.helper", "manager")
    }
}

fn git_next_setting(i: usize) -> (r: (GitImport, Action))
    requires
        i <= 5,
    ensures
        git_after_setting(i as int, r.0, r.1@),
{
    if i < 5 {
        let (key, value) = git_default_at(i);
        (GitImport::Setting { index: i }, Action::just(Effect::Run(git_set_command(key, value))))
    } else {
        let mut notes = Vec::new();
        notes.push(Note { level: Level::Success, text: owned("Git defaults applied.") });
        notes.push(Note { level: Level::Info, text: owned("Set identity if not set:") });
        notes.push(Note { level: Level::Info, text: owned("  git config --global user.name \"Your Name\"") });
        notes.push(Note { level: Level::Info, text: owned("  git config --global user.email \"you@company.com\"") });
        let a = Action { notes, effect: Effect::Finish(Ok(())) };
        assert(a@.notes =~= git_import_closing());
        (GitImport::Over, a)
    }
}

impl Git {
    /// The next move of a Git export.
    pub fn export_step(&self, root: &str, stage: GitExport, reply: Reply) -> (r: (GitExport, Action))
        requires
            answers(stage.awaiting(), reply),
        ensures
            git_export_moves(root@, stage, reply, r.0, r.1@),
    {
        let dir = join(root, "dotfiles");
        let dir = join(dir.as_str(), "git");
        match (stage, reply) {
            (GitExport::Start, _) => (GitExport::CreatingDir, Action::just(Effect::EnsureDir(dir))),
            (GitExport::CreatingDir, Reply::Done(Err(e))) => (GitExport::Over, Action::finish(Err(e))),
            (GitExport::CreatingDir, Reply::Done(Ok(()))) => match git_config_path() {
                Err(e) => (GitExport::Over, Action::finish(Err(e))),
                Ok(config) => {
                    let a = Action::just(Effect::PathExists(config.clone()));
                    (GitExport::CheckingConfig { config }, a)
                },
            },
            (GitExport::CheckingConfig { config }, Reply::Flag(true)) => {
                let to = join(dir.as_str(), ".gitconfig");
                (GitExport::Copying, Action::just(Effect::CopyFile { from: config, to }))
            },
            (GitExport::CheckingConfig { .. }, Reply::Flag(false)) => (
                GitExport::Over,
                Action::noted(Level::Warning, owned("Global .gitconfig not found"), Effect::Finish(Ok(()))),
            ),
            (GitExport::Copying, Reply::Done(Err(e))) => (GitExport::Over, Action::finish(Err(e))),
            (GitExport::Copying, Reply::Done(Ok(()))) => (
                GitExport::Over,
                Action::noted(Level::Success, owned("Exported .gitconfig"), Effect::Finish(Ok(()))),
            ),
            _ => {
                assert(false);
                (GitExport::Over, Action::finish(Ok(())))
            },
        }
    }

    /// The next move of a Git import.
    pub fn import_step(&self, root: &str, stage: GitImport, reply: Reply) -> (r: (GitImport, Action))
        requires
            answers(stage.awaiting(), reply),
        ensures
            git_import_moves(root@, stage, reply, r.0, r.1@),
    {
        match (stage, reply) {
            (GitImport::Start, _) => (GitImport::CheckingGit, Action::just(Effect::CommandExists(owned("git")))),
            (GitImport::CheckingGit, Reply::Flag(false)) => (
                GitImport::Over,
                Action::noted(Level::Warning, owned("Git not found. Skipping."), Effect::Finish(Ok(()))),
            ),
            (GitImport::CheckingGit, Reply::Flag(true)) => {
                let dir = join(root, "dotfiles");
                let dir = join(dir.as_str(), "git");
                let file = join(dir.as_str(), ".gitconfig");
                (GitImport::CheckingDotfile, Action::just(Effect::PathExists(file)))
            },
            (GitImport::CheckingDotfile, Reply::Flag(true)) => {
                let dir = join(root, "dotfiles");
                let dir = join(dir.as_str(), "git");
                let file = join(dir.as_str(), ".gitconfig");
                let cmd = git_set_command("include.path", file.as_str());
                (
                    GitImport::Including,
                    Action::noted(Level::Info, owned("Applying dotfiles gitconfig include..."), Effect::Run(cmd)),
                )
            },
            (GitImport::CheckingDotfile, Reply::Flag(false)) => git_next_setting(0),
            (GitImport::Including, Reply::Ran(Err(e))) => (GitImport::Over, Action::finish(Err(e))),
            (GitImport::Including, Reply::Ran(Ok(_))) => git_next_setting(0),
            (GitImport::Setting { index }, Reply::Ran(_)) => {
                if index < 5 {
                    git_next_setting(index + 1)
                } else {
                    git_next_setting(5)
                }
            },
            _ => {
                assert(false);
                (GitImport::Over, Action::finish(Ok(())))
            },
        }
    }
}

/// Git is known to be installed at this stage of an import.
pub open spec fn import_found(s: GitImport) -> bool {
    !(s is Start || s is CheckingGit || s is Over)
}

/// An import runs `git` only once it has found it installed: each move that
/// runs it starts from a stage past the check, and such a stage is reached
/// only from another one or from the check answered yes.
pub proof fn lemma_import_checks_git(root: Seq<char>, stage: GitImport, reply: Reply, next: GitImport, a: ActionView)
    requires
        git_import_moves(root, stage, reply, next, a),
    ensures
        runs_program(a.effect, "git"@) ==> import_found(stage),
        import_found(next) ==> import_found(stage) || (stage is CheckingGit && reply == Reply::Flag(true)),
{
}

/// A Git export creates and overwrites files only below the config root.
pub proof fn lemma_export_inside_root(root: Seq<char>, stage: GitExport, reply: Reply, next: GitExport, a: ActionView)
    requires
        git_export_moves(root, stage, reply, next, a),
    ensures
        written(a.effect) is Some ==> under(root, written(a.effect)->0),
{
    reveal_strlit("dotfiles");
    reveal_strlit("git");
    reveal_strlit(".gitconfig");
    lemma_joined2_under(root, "dotfiles"@, "git"@);
    lemma_joined_under(git_dotfiles(root), ".gitconfig"@);
    lemma_under_transitive(root, git_dotfiles(root), joined(git_dotfiles(root), ".gitconfig"@));
}

/// A Git import on which git was found applies the five default global
/// settings, in order (`init.defaultBranch main`, `fetch.prune true`,
/// `pull.rebase false`, `core.autocrlf false`, `credential.helper manager`),
/// whether or not the configuration holds a gitconfig to include, and it ends
/// successfully after the last of them; each is run whatever the one before
/// gave.
pub proof fn lemma_import_applies_defaults(root: Seq<char>, stage: GitImport, reply: Reply, next: GitImport, a: ActionView)
    requires
        git_import_moves(root, stage, reply, next, a),
    ensures
        (stage == GitImport::CheckingDotfile && reply == Reply::Flag(false)) ==> next == (GitImport::Setting { index: 0 })
            && a.effect == EffectView::Run("git"@, seq!["config"@, "--global"@, "init.defaultBranch"@, "main"@]),
        (stage == GitImport::Including && reply matches Reply::Ran(Ok(_))) ==> next == (GitImport::Setting { index: 0 })
            && a.effect == EffectView::Run("git"@, seq!["config"@, "--global"@, "init.defaultBranch"@, "main"@]),
        stage == (GitImport::Setting { index: 0 }) ==> next == (GitImport::Setting { index: 1 })
            && a.effect == EffectView::Run("git"@, seq!["config"@, "--global"@, "fetch.prune"@, "true"@]),
        stage == (GitImport::Setting { index: 1 }) ==> next == (GitImport::Setting { index: 2 })
            && a.effect == EffectView::Run("git"@, seq!["config"@, "--global"@, "pull.rebase"@, "false"@]),
        stage == (GitImport::Setting { index: 2 }) ==> next == (GitImport::Setting { index: 3 })
            && a.effect == EffectView::Run("git"@, seq!["config"@, "--global"@, "core.autocrlf"@, "false"@]),
        stage == (GitImport::Setting { index: 3 }) ==> next == (GitImport::Setting { index: 4 })
            && a.effect == EffectView::Run("git"@, seq!["config"@, "--global"@, "credential.helper"@, "manager"@]),
        stage == (GitImport::Setting { index: 4 }) ==> next == GitImport::Over && a.effect == EffectView::Finish(Ok(())),
        next matches GitImport::Setting { index: k } ==> {
            &&& k < 5
            &&& k == 0 ==> (stage is CheckingDotfile || stage is Including)
            &&& k > 0 ==> stage == (GitImport::Setting { index: (k - 1) as usize })
        },
{
}

} // verus!
