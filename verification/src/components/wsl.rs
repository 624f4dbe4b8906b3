//! WSL (Windows Subsystem for Linux) component for managing Linux dotfiles.

use crate::components::effects::{
    add_note, answers, done, fail, info, quiet, shown, success, warning, with_notes, Action, ActionView, Awaiting,
    Effect, EffectView, Level, Note, Reply, written,
};
use crate::error::{error_text, BootstrapError, ErrorView};
use crate::text::{concat, concat3, has_line, line_is, owned, same_text, strip_nul, trim, trimmed, without_nul};
use crate::utils::paths::{
    has_drive, join, joined, lemma_join_slicable, lemma_joined2_under, lemma_joined_under, lemma_under_transitive,
    slicable, to_wsl_path, under, wsl_form,
};
use crate::utils::shell::{arg_texts, command_of, run_wsl_command, str_texts, CommandResult, CommandSpec};
use vstd::prelude::*;

verus! {

/// WSL component for managing Linux dotfiles.
pub struct Wsl {
    pub distro: String,
}

impl Wsl {
    pub fn new(distro: &str) -> (w: Self)
        ensures
            w.distro@ == distro@,
    {
        Wsl { distro: owned(distro) }
    }
}

impl Default for Wsl {
    fn default() -> (w: Self)
        ensures
            w.distro@ == "Ubuntu-24.04"@,
    {
        Wsl::new("Ubuntu-24.04")
    }
}

impl Clone for Wsl {
    fn clone(&self) -> (r: Self)
        ensures
            r == *self,
    {
        Wsl { distro: self.distro.clone() }
    }
}

/// The WSL dotfiles exported and imported (relative to the home directory), in order.
pub open spec fn wsl_dotfile(i: int) -> Seq<char> {
    if i == 0 {
        ".bashrc"@
    } else if i == 1 {
        ".zshrc"@
    } else if i == 2 {
        ".profile"@
    } else if i == 3 {
        ".bash_profile"@
    } else if i == 4 {
        ".bash_aliases"@
    } else if i == 5 {
        ".gitconfig"@
    } else if i == 6 {
        ".vimrc"@
    } else {
        ".tmux.conf"@
    }
}

/// The number of WSL dotfiles.
pub open spec fn dotfile_count() -> int {
    8
}

/// The WSL directories exported and imported, in order.
pub open spec fn wsl_dotdir(j: int) -> Seq<char> {
    if j == 0 {
        ".ssh"@
    } else if j == 1 {
        ".config/starship"@
    } else {
        ".oh-my-zsh/custom"@
    }
}

/// The number of WSL directories.
pub open spec fn dotdir_count() -> int {
    3
}

/// `<root>/dotfiles/wsl`.
pub open spec fn wsl_dotfiles(root: Seq<char>) -> Seq<char> {
    joined(joined(root, "dotfiles"@), "wsl"@)
}

/// A path under the WSL home directory.
pub open spec fn in_home(home: Seq<char>, name: Seq<char>) -> Seq<char> {
    home + "/"@ + name
}

/// A shell command run in the distro: `wsl -d <distro> -- bash -c <command>`.
pub open spec fn in_wsl(distro: Seq<char>, command: Seq<char>) -> EffectView {
    EffectView::Run("wsl"@, seq!["-d"@, distro, "--"@, "bash"@, "-c"@, command])
}

/// The command printing the home directory.
pub open spec fn home_query() -> Seq<char> {
    "echo $HOME"@
}

/// The command telling whether a file exists.
pub open spec fn file_test(path: Seq<char>) -> Seq<char> {
    "test -f '"@ + path + "' && echo yes || echo no"@
}

/// The command telling whether a directory exists.
pub open spec fn dir_test(path: Seq<char>) -> Seq<char> {
    "test -d '"@ + path + "' && echo yes || echo no"@
}

/// The command printing a file.
pub open spec fn cat_file(path: Seq<char>) -> Seq<char> {
    "cat '"@ + path + "'"@
}

/// The command copying a directory's contents into another with tar.
pub open spec fn tar_copy(from: Seq<char>, to: Seq<char>) -> Seq<char> {
    "cd '"@ + from + "' && tar cf - . 2>/dev/null | (cd '"@ + to + "' && tar xf -)"@
}

/// The command saving a copy of a file as `<file>.backup` when it exists.
pub open spec fn backup_file(path: Seq<char>) -> Seq<char> {
    "if [ -f '"@ + path + "' ]; then cp '"@ + path + "' '"@ + path + ".backup' 2>/dev/null || true; fi"@
}

/// The command copying a file.
pub open spec fn copy_file(from: Seq<char>, to: Seq<char>) -> Seq<char> {
    "cp '"@ + from + "' '"@ + to + "'"@
}

/// The command creating a directory and its parents.
pub open spec fn make_dir(path: Seq<char>) -> Seq<char> {
    "mkdir -p '"@ + path + "'"@
}

/// The command restricting the permissions of an `.ssh` directory.
pub open spec fn ssh_permissions(dir: Seq<char>) -> Seq<char> {
    "chmod 700 '"@ + dir + "' && chmod 600 '"@ + dir + "'/* 2>/dev/null || true && chmod 644 '"@ + dir
        + "'/*.pub 2>/dev/null || true"@
}

/// The command listing the installed apt packages.
pub open spec fn apt_list() -> Seq<char> {
    "apt list --installed 2>/dev/null | grep -v 'Listing...' | cut -d'/' -f1"@
}

/// The command upgrading the apt packages.
pub open spec fn apt_upgrade() -> Seq<char> {
    "sudo apt-get update -y && sudo apt-get upgrade -y && sudo apt-get autoremove -y"@
}

/// The output of `wsl -l -q` names the distro: one of its lines, trimmed, is
/// the distro's name (WSL writes the list in UTF-16, hence the NUL characters
/// that are dropped first).
pub open spec fn lists_distro(distro: Seq<char>, outcome: Result<CommandResult, BootstrapError>) -> bool {
    outcome matches Ok(r) && has_line(without_nul(r.stdout@), distro)
}

/// The command's trimmed output is `yes`.
pub open spec fn says_yes(outcome: Result<CommandResult, BootstrapError>) -> bool {
    outcome matches Ok(r) && trimmed(r.stdout@) == "yes"@
}

/// The warning when the distro is missing.
pub open spec fn unavailable(distro: Seq<char>, tail: Seq<char>) -> (Level, Seq<char>) {
    warning("WSL distro '"@ + distro + "' not available. Skipping"@ + tail)
}

/// The warning about `.ssh` keys.
pub open spec fn ssh_warning() -> (Level, Seq<char>) {
    warning("Note: .ssh contains sensitive keys. Review before committing to version control."@)
}

impl Wsl {
    /// Run a command in WSL.
    pub fn run_wsl(&self, command: &str) -> (c: CommandSpec)
        ensures
            EffectView::Run(c.program@, arg_texts(c.args)) == in_wsl(self.distro@, command@),
    {
        run_wsl_command(self.distro.as_str(), command)
    }

    /// Whether the distro is installed, given the outcome of `wsl -l -q`.
    pub fn is_available(&self, listing: &Result<CommandResult, BootstrapError>) -> (b: bool)
        ensures
            b == lists_distro(self.distro@, *listing),
    {
        match listing {
            Ok(r) => {
                let names = strip_nul(r.stdout.as_str());
                line_is(names.as_str(), self.distro.as_str())
            },
            Err(_) => false,
        }
    }

    /// The home directory, from the outcome of `echo $HOME`.
    pub fn get_wsl_home(&self, outcome: Result<CommandResult, BootstrapError>) -> (r: Result<String, BootstrapError>)
        ensures
            match outcome {
                Ok(o) => r matches Ok(h) && h@ == trimmed(o.stdout@),
                Err(e) => r == Err::<String, BootstrapError>(e),
            },
    {
        match outcome {
            Ok(o) => Ok(trim(o.stdout.as_str())),
            Err(e) => Err(e),
        }
    }

    /// Whether a file exists, from the outcome of its `test -f` command.
    pub fn wsl_file_exists(&self, outcome: &Result<CommandResult, BootstrapError>) -> (b: bool)
        ensures
            b == says_yes(*outcome),
    {
        answer_is_yes(outcome)
    }

    /// Whether a directory exists, from the outcome of its `test -d` command.
    pub fn wsl_dir_exists(&self, outcome: &Result<CommandResult, BootstrapError>) -> (b: bool)
        ensures
            b == says_yes(*outcome),
    {
        answer_is_yes(outcome)
    }

    /// A file's contents, from the outcome of its `cat` command.
    pub fn read_wsl_file(&self, outcome: Result<CommandResult, BootstrapError>) -> (r: Result<String, BootstrapError>)
        ensures
            match outcome {
                Ok(o) => r matches Ok(t) && t == o.stdout,
                Err(e) => r == Err::<String, BootstrapError>(e),
            },
    {
        match outcome {
            Ok(o) => Ok(o.stdout),
            Err(e) => Err(e),
        }
    }
}

fn answer_is_yes(outcome: &Result<CommandResult, BootstrapError>) -> (b: bool)
    ensures
        b == says_yes(*outcome),
{
    match outcome {
        Ok(r) => {
            let t = trim(r.stdout.as_str());
            same_text(t.as_str(), "yes")
        },
        Err(_) => false,
    }
}

fn dotfile_at(i: usize) -> (r: &'static str)
    ensures
        r@ == wsl_dotfile(i as int),
{
    if i == 0 {
        ".bashrc"
    } else if i == 1 {
        ".zshrc"
    } else if i == 2 {
        ".profile"
    } else if i == 3 {
        ".bash_profile"
    } else if i == 4 {
        ".bash_aliases"
    } else if i == 5 {
        ".gitconfig"
    } else if i == 6 {
        ".vimrc"
    } else {
        ".tmux.conf"
    }
}

fn dotdir_at(j: usize) -> (r: &'static str)
    ensures
        r@ == wsl_dotdir(j as int),
{
    if j == 0 {
        ".ssh"
    } else if j == 1 {
        ".config/starship"
    } else {
        ".oh-my-zsh/custom"
    }
}

fn wsl_dotfiles_of(root: &str) -> (r: String)
    ensures
        r@ == wsl_dotfiles(root@),
{
    let d = join(root, "dotfiles");
    join(d.as_str(), "wsl")
}

fn home_path(home: &str, name: &str) -> (r: String)
    ensures
        r@ == in_home(home@, name@),
{
    concat3(home, "/", name)
}

/// `before + middle + after`, all three given.
fn wrap(before: &str, middle: &str, after: &str) -> (r: String)
    ensures
        r@ == before@ + middle@ + after@,
{
    concat3(before, middle, after)
}

fn tar_copy_text(from: &str, to: &str) -> (r: String)
    ensures
        r@ == tar_copy(from@, to@),
{
    let mut s = concat3("cd '", from, "' && tar cf - . 2>/dev/null | (cd '");
    s.append(to);
    s.append("' && tar xf -)");
    s
}

fn backup_text(path: &str) -> (r: String)
    ensures
        r@ == backup_file(path@),
{
    let mut s = concat3("if [ -f '", path, "' ]; then cp '");
    s.append(path);
    s.append("' '");
    s.append(path);
    s.append(".backup' 2>/dev/null || true; fi");
    s
}

fn copy_text(from: &str, to: &str) -> (r: String)
    ensures
        r@ == copy_file(from@, to@),
{
    let mut s = concat3("cp '", from, "' '");
    s.append(to);
    s.append("'");
    s
}

fn ssh_permissions_text(dir: &str) -> (r: String)
    ensures
        r@ == ssh_permissions(dir@),
{
    let mut s = concat3("chmod 700 '", dir, "' && chmod 600 '");
    s.append(dir);
    s.append("'/* 2>/dev/null || true && chmod 644 '");
    s.append(dir);
    s.append("'/*.pub 2>/dev/null || true");
    s
}

/// `wsl -l -q`.
fn list_distros() -> (c: CommandSpec)
    ensures
        EffectView::Run(c.program@, arg_texts(c.args)) == EffectView::Run("wsl"@, seq!["-l"@, "-q"@]),
{
    let args = vec!["-l", "-q"];
    assert(str_texts(args@) =~= seq!["-l"@, "-q"@]);
    command_of("wsl", args)
}

/// The paths the WSL jobs convert stay convertible when the root is.
proof fn lemma_wsl_paths_slicable(root: Seq<char>, name: Seq<char>)
    requires
        slicable(root),
    ensures
        slicable(joined(wsl_dotfiles(root), name)),
{
    reveal_strlit("dotfiles");
    lemma_join_slicable(root, "dotfiles"@);
    lemma_join_slicable(joined(root, "dotfiles"@), "wsl"@);
    lemma_join_slicable(wsl_dotfiles(root), name);
}

/// The move of an export converts a path under the root to its WSL form: the
/// copy of a directory, once its destination exists.
pub open spec fn export_converts(stage: WslExport, reply: Reply) -> bool {
    stage is CreatingDestDir && reply matches Reply::Done(Ok(_))
}

/// The move of an import converts a path under the root to its WSL form: the
/// copy of a dotfile or directory found in the configuration.
pub open spec fn import_converts(stage: WslImport, reply: Reply) -> bool {
    (stage is CheckingFile || stage is CheckingDir) && reply == Reply::Flag(true)
}

/// Whether the move of an export converts a path.
pub fn export_converts_path(stage: &WslExport, reply: &Reply) -> (b: bool)
    ensures
        b == export_converts(*stage, *reply),
{
    match (stage, reply) {
        (WslExport::CreatingDestDir { .. }, Reply::Done(Ok(()))) => true,
        _ => false,
    }
}

/// Whether the move of an import converts a path.
pub fn import_converts_path(stage: &WslImport, reply: &Reply) -> (b: bool)
    ensures
        b == import_converts(*stage, *reply),
{
    match (stage, reply) {
        (WslImport::CheckingFile { .. }, Reply::Flag(true)) => true,
        (WslImport::CheckingDir { .. }, Reply::Flag(true)) => true,
        _ => false,
    }
}

/// The conversion of a path under `<root>/dotfiles/wsl` to its WSL form.
pub open spec fn converted(p: Seq<char>, r: Result<String, BootstrapError>) -> bool {
    &&& has_drive(p) ==> (r matches Ok(w) && w@ == wsl_form(p))
    &&& !has_drive(p) ==> (r matches Err(e) && e@ == ErrorView::Path("Cannot convert path to WSL format: "@ + p))
}

/// The shared beginning of every WSL job.
pub enum Availability {
    Start,
    CheckingWsl,
    ListingDistros,
}

/// One move of the availability check; `Ok` when the distro is there,
/// `Err(action)` when the job ends.
pub open spec fn availability_moves(
    distro: Seq<char>,
    tail: Seq<char>,
    stage: Availability,
    reply: Reply,
    next: Option<Availability>,
    a: ActionView,
    ready: bool,
) -> bool {
    match (stage, reply) {
        (Availability::Start, _) => !ready && next == Some(Availability::CheckingWsl) && a == quiet(
            EffectView::CommandExists("wsl"@),
        ),
        (Availability::CheckingWsl, Reply::Flag(false)) => !ready && next is None && a == with_notes(
            seq![unavailable(distro, tail)],
            done(),
        ),
        (Availability::CheckingWsl, Reply::Flag(true)) => !ready && next == Some(Availability::ListingDistros) && a
            == quiet(EffectView::Run("wsl"@, seq!["-l"@, "-q"@])),
        (Availability::ListingDistros, Reply::Ran(o)) => if lists_distro(distro, o) {
            ready && next is None
        } else {
            !ready && next is None && a == with_notes(seq![unavailable(distro, tail)], done())
        },
        _ => false,
    }
}

impl Availability {
    /// How far the check is from its end.
    pub open spec fn rank(self) -> nat {
        match self {
            Availability::Start => 2,
            Availability::CheckingWsl => 1,
            Availability::ListingDistros => 0,
        }
    }

    /// The reply this stage waits for.
    pub open spec fn awaiting(self) -> Awaiting {
        match self {
            Availability::Start => Awaiting::Begin,
            Availability::CheckingWsl => Awaiting::Flag,
            Availability::ListingDistros => Awaiting::Ran,
        }
    }

    /// The reply this stage waits for.
    pub fn awaits(&self) -> (w: Awaiting)
        ensures
            w == self.awaiting(),
    {
        match self {
            Availability::Start => Awaiting::Begin,
            Availability::CheckingWsl => Awaiting::Flag,
            Availability::ListingDistros => Awaiting::Ran,
        }
    }
}

impl Wsl {
    /// One move of the availability check.  `(Some(next), action)`: go on
    /// checking; `(None, action)`: the job ends with `action`; `None` overall:
    /// the distro is there.
    fn availability_step(&self, tail: &str, stage: Availability, reply: Reply) -> (r: Option<(Option<Availability>, Action)>)
        requires
            answers(stage.awaiting(), reply),
        ensures
            match r {
                Some((next, a)) => availability_moves(self.distro@, tail@, stage, reply, next, a@, false),
                None => availability_moves(self.distro@, tail@, stage, reply, None, quiet(done()), true),
            },
    {
        match (stage, reply) {
            (Availability::Start, _) => Some(
                (Some(Availability::CheckingWsl), Action::just(Effect::CommandExists(owned("wsl")))),
            ),
            (Availability::CheckingWsl, Reply::Flag(false)) => {
                let mut text = concat3("WSL distro '", self.distro.as_str(), "' not available. Skipping");
                text.append(tail);
                Some((None, Action::noted(Level::Warning, text, Effect::Finish(Ok(())))))
            },
            (Availability::CheckingWsl, Reply::Flag(true)) => Some(
                (Some(Availability::ListingDistros), Action::just(Effect::Run(list_distros()))),
            ),
            (Availability::ListingDistros, Reply::Ran(o)) => {
                if self.is_available(&o) {
                    None
                } else {
                    let mut text = concat3("WSL distro '", self.distro.as_str(), "' not available. Skipping");
                    text.append(tail);
                    Some((None, Action::noted(Level::Warning, text, Effect::Finish(Ok(())))))
                }
            },
            _ => {
                assert(false);
                None
            },
        }
    }
}

/// Progress of a WSL dotfiles export.
pub enum WslExport {
    Checking(Availability),
    CreatingDir,
    ReadingHome,
    CheckingFile { home: String, index: usize },
    ReadingFile { home: String, index: usize },
    CreatingFileDir { home: String, index: usize, contents: String },
    WritingFile { home: String, index: usize },
    CheckingDir { home: String, index: usize },
    CreatingDestDir { home: String, index: usize },
    CopyingDir { home: String, index: usize },
    ListingPackages,
    WritingPackages,
    Over,
}

impl WslExport {
    /// How far the export is from its end: lower at every move.
    pub open spec fn rank(self) -> (nat, nat) {
        match self {
            WslExport::Checking(s) => (46 + s.rank(), 0),
            WslExport::CreatingDir => (45, 0),
            WslExport::ReadingHome => (44, 0),
            WslExport::CheckingFile { index, .. } => ((11 + 4 * (8 - index)) as nat, 0),
            WslExport::ReadingFile { index, .. } => ((10 + 4 * (8 - index)) as nat, 0),
            WslExport::CreatingFileDir { index, .. } => ((9 + 4 * (8 - index)) as nat, 0),
            WslExport::WritingFile { index, .. } => ((8 + 4 * (8 - index)) as nat, 0),
            WslExport::CheckingDir { index, .. } => ((2 + 3 * (3 - index)) as nat, 0),
            WslExport::CreatingDestDir { index, .. } => ((1 + 3 * (3 - index)) as nat, 0),
            WslExport::CopyingDir { index, .. } => ((3 * (3 - index)) as nat, 0),
            WslExport::ListingPackages => (2, 0),
            WslExport::WritingPackages => (1, 0),
            WslExport::Over => (0, 0),
        }
    }

    /// The reply this stage waits for.
    pub open spec fn awaiting(self) -> Awaiting {
        match self {
            WslExport::Checking(s) => s.awaiting(),
            WslExport::CreatingDir => Awaiting::Done,
            WslExport::ReadingHome => Awaiting::Ran,
            WslExport::CheckingFile { index, .. } => if index < 8 { Awaiting::Ran } else { Awaiting::Nothing },
            WslExport::ReadingFile { index, .. } => if index < 8 { Awaiting::Ran } else { Awaiting::Nothing },
            WslExport::CreatingFileDir { index, .. } => if index < 8 { Awaiting::Done } else { Awaiting::Nothing },
            WslExport::WritingFile { index, .. } => if index < 8 { Awaiting::Done } else { Awaiting::Nothing },
            WslExport::CheckingDir { index, .. } => if index < 3 { Awaiting::Ran } else { Awaiting::Nothing },
            WslExport::CreatingDestDir { index, .. } => if index < 3 { Awaiting::Done } else { Awaiting::Nothing },
            WslExport::CopyingDir { index, .. } => if index < 3 { Awaiting::Ran } else { Awaiting::Nothing },
            WslExport::ListingPackages => Awaiting::Ran,
            WslExport::WritingPackages => Awaiting::Done,
            WslExport::Over => Awaiting::Nothing,
        }
    }

    /// The reply this stage waits for.
    pub fn awaits(&self) -> (w: Awaiting)
        ensures
            w == self.awaiting(),
    {
        match self {
            WslExport::Checking(s) => s.awaits(),
            WslExport::CreatingDir => Awaiting::Done,
            WslExport::ReadingHome => Awaiting::Ran,
            WslExport::CheckingFile { index, .. } => if *index < 8 { Awaiting::Ran } else { Awaiting::Nothing },
            WslExport::ReadingFile { index, .. } => if *index < 8 { Awaiting::Ran } else { Awaiting::Nothing },
            WslExport::CreatingFileDir { index, .. } => if *index < 8 { Awaiting::Done } else { Awaiting::Nothing },
            WslExport::WritingFile { index, .. } => if *index < 8 { Awaiting::Done } else { Awaiting::Nothing },
            WslExport::CheckingDir { index, .. } => if *index < 3 { Awaiting::Ran } else { Awaiting::Nothing },
            WslExport::CreatingDestDir { index, .. } => if *index < 3 { Awaiting::Done } else { Awaiting::Nothing },
            WslExport::CopyingDir { index, .. } => if *index < 3 { Awaiting::Ran } else { Awaiting::Nothing },
            WslExport::ListingPackages => Awaiting::Ran,
            WslExport::WritingPackages => Awaiting::Done,
            WslExport::Over => Awaiting::Nothing,
        }
    }
}

/// Look at directory `j` of an export, or list the apt packages, after `notes`.
pub open spec fn export_dir_from(distro: Seq<char>, home: Seq<char>, j: int, notes: Seq<(Level, Seq<char>)>, next: WslExport, a: ActionView) -> bool {
    if j < dotdir_count() {
        &&& next is CheckingDir
        &&& next->CheckingDir_home@ == home
        &&& next->CheckingDir_index == j
        &&& a == with_notes(notes, in_wsl(distro, dir_test(in_home(home, wsl_dotdir(j)))))
    } else {
        next == WslExport::ListingPackages && a == with_notes(
            notes.push(info("Exporting installed apt packages list..."@)),
            in_wsl(distro, apt_list()),
        )
    }
}

/// Look at dotfile `i` of an export, or go on to the directories, after `notes`.
pub open spec fn export_file_from(distro: Seq<char>, home: Seq<char>, i: int, notes: Seq<(Level, Seq<char>)>, next: WslExport, a: ActionView) -> bool {
    if i < dotfile_count() {
        &&& next is CheckingFile
        &&& next->CheckingFile_home@ == home
        &&& next->CheckingFile_index == i
        &&& a == with_notes(notes, in_wsl(distro, file_test(in_home(home, wsl_dotfile(i)))))
    } else {
        export_dir_from(distro, home, 0, notes, next, a)
    }
}

/// The messages after directory `j` was copied out of or into WSL.
pub open spec fn dir_copied_notes(verb: Seq<char>, j: int) -> Seq<(Level, Seq<char>)> {
    seq![success(verb + " directory: "@ + wsl_dotdir(j) + "/"@)]
}

/// One move of a WSL export: when the distro is installed, copy each dotfile
/// that exists in the WSL home into `<root>/dotfiles/wsl`, copy each directory
/// that exists there with tar, and write the list of installed apt packages.
pub open spec fn wsl_export_moves(
    distro: Seq<char>,
    root: Seq<char>,
    stage: WslExport,
    reply: Reply,
    next: WslExport,
    a: ActionView,
) -> bool {
    let dir = wsl_dotfiles(root);
    match (stage, reply) {
        (WslExport::Checking(s), _) => {
            ||| next matches WslExport::Checking(n) && availability_moves(distro, " WSL export."@, s, reply, Some(n), a, false)
            ||| next == WslExport::Over && availability_moves(distro, " WSL export."@, s, reply, None, a, false)
            ||| next == WslExport::CreatingDir && availability_moves(distro, " WSL export."@, s, reply, None, quiet(done()), true)
                && a == quiet(EffectView::EnsureDir(dir))
        },
        (WslExport::CreatingDir, Reply::Done(Err(e))) => next == WslExport::Over && a == quiet(fail(e@)),
        (WslExport::CreatingDir, Reply::Done(Ok(()))) => next == WslExport::ReadingHome && a == quiet(in_wsl(distro, home_query())),
        (WslExport::ReadingHome, Reply::Ran(Err(e))) => next == WslExport::Over && a == quiet(fail(e@)),
        (WslExport::ReadingHome, Reply::Ran(Ok(o))) => export_file_from(
            distro,
            trimmed(o.stdout@),
            0,
            seq![info("WSL Home: "@ + trimmed(o.stdout@))],
            next,
            a,
        ),
        (WslExport::CheckingFile { home, index }, Reply::Ran(o)) => if says_yes(o) {
            next == (WslExport::ReadingFile { home, index }) && a == quiet(
                in_wsl(distro, cat_file(in_home(home@, wsl_dotfile(index as int)))),
            )
        } else {
            export_file_from(distro, home@, index + 1, seq![], next, a)
        },
        (WslExport::ReadingFile { .. }, Reply::Ran(Err(e))) => next == WslExport::Over && a == quiet(fail(e@)),
        (WslExport::ReadingFile { home, index }, Reply::Ran(Ok(o))) => next == (WslExport::CreatingFileDir {
            home,
            index,
            contents: o.stdout,
        }) && a == quiet(EffectView::EnsureDir(dir)),
        (WslExport::CreatingFileDir { .. }, Reply::Done(Err(e))) => next == WslExport::Over && a == quiet(fail(e@)),
        (WslExport::CreatingFileDir { home, index, contents }, Reply::Done(Ok(()))) => next == (WslExport::WritingFile {
            home,
            index,
        }) && a == quiet(EffectView::WriteFile(joined(dir, wsl_dotfile(index as int)), contents@)),
        (WslExport::WritingFile { .. }, Reply::Done(Err(e))) => next == WslExport::Over && a == quiet(fail(e@)),
        (WslExport::WritingFile { home, index }, Reply::Done(Ok(()))) => export_file_from(
            distro,
            home@,
            index + 1,
            seq![success("Exported: "@ + wsl_dotfile(index as int))],
            next,
            a,
        ),
        (WslExport::CheckingDir { home, index }, Reply::Ran(o)) => if says_yes(o) {
            next == (WslExport::CreatingDestDir { home, index }) && a == quiet(
                EffectView::EnsureDir(joined(dir, wsl_dotdir(index as int))),
            )
        } else {
            export_dir_from(distro, home@, index + 1, seq![], next, a)
        },
        (WslExport::CreatingDestDir { .. }, Reply::Done(Err(e))) => next == WslExport::Over && a == quiet(fail(e@)),
        (WslExport::CreatingDestDir { home, index }, Reply::Done(Ok(()))) => {
            let p = joined(dir, wsl_dotdir(index as int));
            if has_drive(p) {
                next == (WslExport::CopyingDir { home, index }) && a == quiet(
                    in_wsl(distro, tar_copy(in_home(home@, wsl_dotdir(index as int)), wsl_form(p))),
                )
            } else {
                next == WslExport::Over && a == quiet(fail(ErrorView::Path("Cannot convert path to WSL format: "@ + p)))
            }
        },
        (WslExport::CopyingDir { .. }, Reply::Ran(Err(e))) => next == WslExport::Over && a == quiet(fail(e@)),
        (WslExport::CopyingDir { home, index }, Reply::Ran(Ok(_))) => export_dir_from(
            distro,
            home@,
            index + 1,
            if wsl_dotdir(index as int) == ".ssh"@ {
                dir_copied_notes("Exported"@, index as int).push(ssh_warning())
            } else {
                dir_copied_notes("Exported"@, index as int)
            },
            next,
            a,
        ),
        (WslExport::ListingPackages, Reply::Ran(Err(e))) => next == WslExport::Over && a == quiet(fail(e@)),
        (WslExport::ListingPackages, Reply::Ran(Ok(o))) => next == WslExport::WritingPackages && a == quiet(
            EffectView::WriteFile(joined(dir, "installed-packages.txt"@), o.stdout@),
        ),
        (WslExport::WritingPackages, Reply::Done(Err(e))) => next == WslExport::Over && a == quiet(fail(e@)),
        (WslExport::WritingPackages, Reply::Done(Ok(()))) => next == WslExport::Over && a == with_notes(
            seq![success("WSL dotfiles exported to: "@ + dir)],
            done(),
        ),
        _ => false,
    }
}

impl Wsl {
    fn export_dir_from(&self, home: String, j: usize, notes: Vec<Note>) -> (r: (WslExport, Action))
        requires
            j <= 3,
        ensures
            export_dir_from(self.distro@, home@, j as int, shown(notes@), r.0, r.1@),
    {
        if j < 3 {
            let path = home_path(home.as_str(), dotdir_at(j));
            let test = wrap("test -d '", path.as_str(), "' && echo yes || echo no");
            let c = self.run_wsl(test.as_str());
            (WslExport::CheckingDir { home, index: j }, Action::with(notes, Effect::Run(c)))
        } else {
            let mut notes = notes;
            add_note(&mut notes, Level::Info, owned("Exporting installed apt packages list..."));
            let c = self.run_wsl("apt list --installed 2>/dev/null | grep -v 'Listing...' | cut -d'/' -f1");
            (WslExport::ListingPackages, Action::with(notes, Effect::Run(c)))
        }
    }

    fn export_file_from(&self, home: String, i: usize, notes: Vec<Note>) -> (r: (WslExport, Action))
        requires
            i <= 8,
        ensures
            export_file_from(self.distro@, home@, i as int, shown(notes@), r.0, r.1@),
    {
        if i < 8 {
            let path = home_path(home.as_str(), dotfile_at(i));
            let test = wrap("test -f '", path.as_str(), "' && echo yes || echo no");
            let c = self.run_wsl(test.as_str());
            (WslExport::CheckingFile { home, index: i }, Action::with(notes, Effect::Run(c)))
        } else {
            self.export_dir_from(home, 0, notes)
        }
    }

    /// The next move of a WSL dotfiles export.
    pub fn export_step(&self, root: &str, stage: WslExport, reply: Reply) -> (r: (WslExport, Action))
        requires
            answers(stage.awaiting(), reply),
            export_converts(stage, reply) ==> slicable(root@),
        ensures
            wsl_export_moves(self.distro@, root@, stage, reply, r.0, r.1@),
    {
        let dir = wsl_dotfiles_of(root);
        match (stage, reply) {
            (WslExport::Checking(s), reply) => match self.availability_step(" WSL export.", s, reply) {
                Some((Some(n), a)) => (WslExport::Checking(n), a),
                Some((None, a)) => (WslExport::Over, a),
                None => (WslExport::CreatingDir, Action::just(Effect::EnsureDir(dir))),
            },
            (WslExport::CreatingDir, Reply::Done(Err(e))) => (WslExport::Over, Action::finish(Err(e))),
            (WslExport::CreatingDir, Reply::Done(Ok(()))) => (
                WslExport::ReadingHome,
                Action::just(Effect::Run(self.run_wsl("echo $HOME"))),
            ),
            (WslExport::ReadingHome, Reply::Ran(Err(e))) => (WslExport::Over, Action::finish(Err(e))),
            (WslExport::ReadingHome, Reply::Ran(Ok(o))) => {
                let home = trim(o.stdout.as_str());
                let mut notes = Vec::new();
                add_note(&mut notes, Level::Info, concat("WSL Home: ", home.as_str()));
                assert(shown(notes@) =~= seq![info("WSL Home: "@ + home@)]);
                self.export_file_from(home, 0, notes)
            },
            (WslExport::CheckingFile { home, index }, Reply::Ran(o)) => {
                if answer_is_yes(&o) {
                    let path = home_path(home.as_str(), dotfile_at(index));
                    let cmd = wrap("cat '", path.as_str(), "'");
                    let c = self.run_wsl(cmd.as_str());
                    (WslExport::ReadingFile { home, index }, Action::just(Effect::Run(c)))
                } else {
                    let r = self.export_file_from(home, index + 1, Vec::new());
                    assert(shown(Seq::<Note>::empty()) =~= seq![]);
                    r
                }
            },
            (WslExport::ReadingFile { .. }, Reply::Ran(Err(e))) => (WslExport::Over, Action::finish(Err(e))),
            (WslExport::ReadingFile { home, index }, Reply::Ran(Ok(o))) => (
                WslExport::CreatingFileDir { home, index, contents: o.stdout },
                Action::just(Effect::EnsureDir(dir)),
            ),
            (WslExport::CreatingFileDir { .. }, Reply::Done(Err(e))) => (WslExport::Over, Action::finish(Err(e))),
            (WslExport::CreatingFileDir { home, index, contents }, Reply::Done(Ok(()))) => {
                let path = join(dir.as_str(), dotfile_at(index));
                (WslExport::WritingFile { home, index }, Action::just(Effect::WriteFile { path, contents }))
            },
            (WslExport::WritingFile { .. }, Reply::Done(Err(e))) => (WslExport::Over, Action::finish(Err(e))),
            (WslExport::WritingFile { home, index }, Reply::Done(Ok(()))) => {
                let mut notes = Vec::new();
                add_note(&mut notes, Level::Success, concat("Exported: ", dotfile_at(index)));
                assert(shown(notes@) =~= seq![success("Exported: "@ + wsl_dotfile(index as int))]);
                self.export_file_from(home, index + 1, notes)
            },
            (WslExport::CheckingDir { home, index }, Reply::Ran(o)) => {
                if answer_is_yes(&o) {
                    let path = join(dir.as_str(), dotdir_at(index));
                    (WslExport::CreatingDestDir { home, index }, Action::just(Effect::EnsureDir(path)))
                } else {
                    let r = self.export_dir_from(home, index + 1, Vec::new());
                    assert(shown(Seq::<Note>::empty()) =~= seq![]);
                    r
                }
            },
            (WslExport::CreatingDestDir { .. }, Reply::Done(Err(e))) => (WslExport::Over, Action::finish(Err(e))),
            (WslExport::CreatingDestDir { home, index }, Reply::Done(Ok(()))) => {
                let dest = join(dir.as_str(), dotdir_at(index));
                proof {
                    lemma_wsl_paths_slicable(root@, wsl_dotdir(index as int));
                }
                match to_wsl_path(dest.as_str()) {
                    Err(e) => (WslExport::Over, Action::finish(Err(e))),
                    Ok(target) => {
                        let source = home_path(home.as_str(), dotdir_at(index));
                        let cmd = tar_copy_text(source.as_str(), target.as_str());
                        let c = self.run_wsl(cmd.as_str());
                        (WslExport::CopyingDir { home, index }, Action::just(Effect::Run(c)))
                    },
                }
            },
            (WslExport::CopyingDir { .. }, Reply::Ran(Err(e))) => (WslExport::Over, Action::finish(Err(e))),
            (WslExport::CopyingDir { home, index }, Reply::Ran(Ok(_))) => {
                let name = dotdir_at(index);
                let mut notes = Vec::new();
                add_note(&mut notes, Level::Success, concat3("Exported directory: ", name, "/"));
                assert(shown(notes@) =~= dir_copied_notes("Exported"@, index as int)) by {
                    assert("Exported"@ + " directory: "@ =~= "Exported directory: "@) by {
                        reveal_strlit("Exported");
                        reveal_strlit(" directory: ");
                        reveal_strlit("Exported directory: ");
                    }
                }
                if same_text(name, ".ssh") {
                    add_note(
                        &mut notes,
                        Level::Warning,
                        owned("Note: .ssh contains sensitive keys. Review before committing to version control."),
                    );
                }
                self.export_dir_from(home, index + 1, notes)
            },
            (WslExport::ListingPackages, Reply::Ran(Err(e))) => (WslExport::Over, Action::finish(Err(e))),
            (WslExport::ListingPackages, Reply::Ran(Ok(o))) => {
                let path = join(dir.as_str(), "installed-packages.txt");
                (WslExport::WritingPackages, Action::just(Effect::WriteFile { path, contents: o.stdout }))
            },
            (WslExport::WritingPackages, Reply::Done(Err(e))) => (WslExport::Over, Action::finish(Err(e))),
            (WslExport::WritingPackages, Reply::Done(Ok(()))) => {
                let text = concat("WSL dotfiles exported to: ", dir.as_str());
                (WslExport::Over, Action::noted(Level::Success, text, Effect::Finish(Ok(()))))
            },
            _ => {
                assert(false);
                (WslExport::Over, Action::finish(Ok(())))
            },
        }
    }
}

/// Progress of a WSL dotfiles import.
pub enum WslImport {
    Checking(Availability),
    CheckingDotfiles,
    ReadingHome,
    CheckingFile { home: String, index: usize },
    BackingUp { home: String, index: usize, source: String },
    CopyingFile { home: String, index: usize },
    CheckingDir { home: String, index: usize },
    MakingDir { home: String, index: usize, source: String },
    CopyingDir { home: String, index: usize },
    FixingPermissions { home: String, index: usize },
    Over,
}

impl WslImport {
    /// How far the import is from its end: lower at every move.
    pub open spec fn rank(self) -> (nat, nat) {
        match self {
            WslImport::Checking(s) => (39 + s.rank(), 0),
            WslImport::CheckingDotfiles => (38, 0),
            WslImport::ReadingHome => (37, 0),
            WslImport::CheckingFile { index, .. } => ((12 + 3 * (8 - index)) as nat, 0),
            WslImport::BackingUp { index, .. } => ((11 + 3 * (8 - index)) as nat, 0),
            WslImport::CopyingFile { index, .. } => ((10 + 3 * (8 - index)) as nat, 0),
            WslImport::CheckingDir { index, .. } => ((4 * (3 - index)) as nat, 0),
            WslImport::MakingDir { index, .. } => ((4 * (3 - index) - 1) as nat, 0),
            WslImport::CopyingDir { index, .. } => ((4 * (3 - index) - 2) as nat, 0),
            WslImport::FixingPermissions { index, .. } => ((4 * (3 - index) - 3) as nat, 0),
            WslImport::Over => (0, 0),
        }
    }

    /// The reply this stage waits for.
    pub open spec fn awaiting(self) -> Awaiting {
        match self {
            WslImport::Checking(s) => s.awaiting(),
            WslImport::CheckingDotfiles => Awaiting::Flag,
            WslImport::ReadingHome => Awaiting::Ran,
            WslImport::CheckingFile { index, .. } => if index < 8 { Awaiting::Flag } else { Awaiting::Nothing },
            WslImport::BackingUp { index, .. } => if index < 8 { Awaiting::Ran } else { Awaiting::Nothing },
            WslImport::CopyingFile { index, .. } => if index < 8 { Awaiting::Ran } else { Awaiting::Nothing },
            WslImport::CheckingDir { index, .. } => if index < 3 { Awaiting::Flag } else { Awaiting::Nothing },
            WslImport::MakingDir { index, .. } => if index < 3 { Awaiting::Ran } else { Awaiting::Nothing },
            WslImport::CopyingDir { index, .. } => if index < 3 { Awaiting::Ran } else { Awaiting::Nothing },
            WslImport::FixingPermissions { index, .. } => if index < 3 { Awaiting::Ran } else { Awaiting::Nothing },
            WslImport::Over => Awaiting::Nothing,
        }
    }

    /// The reply this stage waits for.
    pub fn awaits(&self) -> (w: Awaiting)
        ensures
            w == self.awaiting(),
    {
        match self {
            WslImport::Checking(s) => s.awaits(),
            WslImport::CheckingDotfiles => Awaiting::Flag,
            WslImport::ReadingHome => Awaiting::Ran,
            WslImport::CheckingFile { index, .. } => if *index < 8 { Awaiting::Flag } else { Awaiting::Nothing },
            WslImport::BackingUp { index, .. } => if *index < 8 { Awaiting::Ran } else { Awaiting::Nothing },
            WslImport::CopyingFile { index, .. } => if *index < 8 { Awaiting::Ran } else { Awaiting::Nothing },
            WslImport::CheckingDir { index, .. } => if *index < 3 { Awaiting::Flag } else { Awaiting::Nothing },
            WslImport::MakingDir { index, .. } => if *index < 3 { Awaiting::Ran } else { Awaiting::Nothing },
            WslImport::CopyingDir { index, .. } => if *index < 3 { Awaiting::Ran } else { Awaiting::Nothing },
            WslImport::FixingPermissions { index, .. } => if *index < 3 { Awaiting::Ran } else { Awaiting::Nothing },
            WslImport::Over => Awaiting::Nothing,
        }
    }
}

/// Look at directory `j` of an import, or end, after `notes`.
pub open spec fn import_dir_from(root: Seq<char>, home: Seq<char>, j: int, notes: Seq<(Level, Seq<char>)>, next: WslImport, a: ActionView) -> bool {
    if j < dotdir_count() {
        &&& next is CheckingDir
        &&& next->CheckingDir_home@ == home
        &&& next->CheckingDir_index == j
        &&& a == with_notes(notes, EffectView::PathExists(joined(wsl_dotfiles(root), wsl_dotdir(j))))
    } else {
        next == WslImport::Over && a == with_notes(notes.push(success("WSL dotfiles imported successfully."@)), done())
    }
}

/// Look at dotfile `i` of an import, or go on to the directories, after `notes`.
pub open spec fn import_file_from(root: Seq<char>, home: Seq<char>, i: int, notes: Seq<(Level, Seq<char>)>, next: WslImport, a: ActionView) -> bool {
    if i < dotfile_count() {
        &&& next is CheckingFile
        &&& next->CheckingFile_home@ == home
        &&& next->CheckingFile_index == i
        &&& a == with_notes(notes, EffectView::PathExists(joined(wsl_dotfiles(root), wsl_dotfile(i))))
    } else {
        import_dir_from(root, home, 0, notes, next, a)
    }
}

/// One move of a WSL import: when the distro is installed and
/// `<root>/dotfiles/wsl` exists, copy each dotfile found there into the WSL
/// home after backing up the file it replaces, copy each directory found there
/// with tar, and restrict the permissions of `.ssh`.
pub open spec fn wsl_import_moves(
    distro: Seq<char>,
    root: Seq<char>,
    stage: WslImport,
    reply: Reply,
    next: WslImport,
    a: ActionView,
) -> bool {
    let dir = wsl_dotfiles(root);
    match (stage, reply) {
        (WslImport::Checking(s), _) => {
            ||| next matches WslImport::Checking(n) && availability_moves(distro, " WSL import."@, s, reply, Some(n), a, false)
            ||| next == WslImport::Over && availability_moves(distro, " WSL import."@, s, reply, None, a, false)
            ||| next == WslImport::CheckingDotfiles && availability_moves(distro, " WSL import."@, s, reply, None, quiet(done()), true)
                && a == quiet(EffectView::PathExists(dir))
        },
        (WslImport::CheckingDotfiles, Reply::Flag(false)) => next == WslImport::Over && a == with_notes(
            seq![warning("No WSL dotfiles found at "@ + dir + ". Skipping."@)],
            done(),
        ),
        (WslImport::CheckingDotfiles, Reply::Flag(true)) => next == WslImport::ReadingHome && a == quiet(
            in_wsl(distro, home_query()),
        ),
        (WslImport::ReadingHome, Reply::Ran(Err(e))) => next == WslImport::Over && a == quiet(fail(e@)),
        (WslImport::ReadingHome, Reply::Ran(Ok(o))) => import_file_from(
            root,
            trimmed(o.stdout@),
            0,
            seq![info("WSL Home: "@ + trimmed(o.stdout@))],
            next,
            a,
        ),
        (WslImport::CheckingFile { home, index }, Reply::Flag(false)) => import_file_from(root, home@, index + 1, seq![], next, a),
        (WslImport::CheckingFile { home, index }, Reply::Flag(true)) => {
            let p = joined(dir, wsl_dotfile(index as int));
            if has_drive(p) {
                &&& next is BackingUp
                &&& next->BackingUp_home == home
                &&& next->BackingUp_index == index
                &&& next->BackingUp_source@ == wsl_form(p)
                &&& a == quiet(in_wsl(distro, backup_file(in_home(home@, wsl_dotfile(index as int)))))
            } else {
                next == WslImport::Over && a == quiet(fail(ErrorView::Path("Cannot convert path to WSL format: "@ + p)))
            }
        },
        (WslImport::BackingUp { .. }, Reply::Ran(Err(e))) => next == WslImport::Over && a == quiet(fail(e@)),
        (WslImport::BackingUp { home, index, source }, Reply::Ran(Ok(_))) => next == (WslImport::CopyingFile {
            home,
            index,
        }) && a == quiet(in_wsl(distro, copy_file(source@, in_home(home@, wsl_dotfile(index as int))))),
        (WslImport::CopyingFile { .. }, Reply::Ran(Err(e))) => next == WslImport::Over && a == quiet(fail(e@)),
        (WslImport::CopyingFile { home, index }, Reply::Ran(Ok(_))) => import_file_from(
            root,
            home@,
            index + 1,
            seq![success("Imported: "@ + wsl_dotfile(index as int))],
            next,
            a,
        ),
        (WslImport::CheckingDir { home, index }, Reply::Flag(false)) => import_dir_from(root, home@, index + 1, seq![], next, a),
        (WslImport::CheckingDir { home, index }, Reply::Flag(true)) => {
            let p = joined(dir, wsl_dotdir(index as int));
            if has_drive(p) {
                &&& next is MakingDir
                &&& next->MakingDir_home == home
                &&& next->MakingDir_index == index
                &&& next->MakingDir_source@ == wsl_form(p)
                &&& a == quiet(in_wsl(distro, make_dir(in_home(home@, wsl_dotdir(index as int)))))
            } else {
                next == WslImport::Over && a == quiet(fail(ErrorView::Path("Cannot convert path to WSL format: "@ + p)))
            }
        },
        (WslImport::MakingDir { .. }, Reply::Ran(Err(e))) => next == WslImport::Over && a == quiet(fail(e@)),
        (WslImport::MakingDir { home, index, source }, Reply::Ran(Ok(_))) => next == (WslImport::CopyingDir {
            home,
            index,
        }) && a == quiet(in_wsl(distro, tar_copy(source@, in_home(home@, wsl_dotdir(index as int))))),
        (WslImport::CopyingDir { .. }, Reply::Ran(Err(e))) => next == WslImport::Over && a == quiet(fail(e@)),
        (WslImport::CopyingDir { home, index }, Reply::Ran(Ok(_))) => if wsl_dotdir(index as int) == ".ssh"@ {
            next == (WslImport::FixingPermissions { home, index }) && a == with_notes(
                dir_copied_notes("Imported"@, index as int).push(info("Setting correct permissions for .ssh..."@)),
                in_wsl(distro, ssh_permissions(in_home(home@, wsl_dotdir(index as int)))),
            )
        } else {
            import_dir_from(root, home@, index + 1, dir_copied_notes("Imported"@, index as int), next, a)
        },
        (WslImport::FixingPermissions { .. }, Reply::Ran(Err(e))) => next == WslImport::Over && a == quiet(fail(e@)),
        (WslImport::FixingPermissions { home, index }, Reply::Ran(Ok(_))) => import_dir_from(root, home@, index + 1, seq![], next, a),
        _ => false,
    }
}

impl Wsl {
    fn import_dir_from(&self, root: &str, home: String, j: usize, notes: Vec<Note>) -> (r: (WslImport, Action))
        requires
            j <= 3,
        ensures
            import_dir_from(root@, home@, j as int, shown(notes@), r.0, r.1@),
    {
        if j < 3 {
            let dir = wsl_dotfiles_of(root);
            let path = join(dir.as_str(), dotdir_at(j));
            (WslImport::CheckingDir { home, index: j }, Action::with(notes, Effect::PathExists(path)))
        } else {
            let mut notes = notes;
            add_note(&mut notes, Level::Success, owned("WSL dotfiles imported successfully."));
            (WslImport::Over, Action::with(notes, Effect::Finish(Ok(()))))
        }
    }

    fn import_file_from(&self, root: &str, home: String, i: usize, notes: Vec<Note>) -> (r: (WslImport, Action))
        requires
            i <= 8,
        ensures
            import_file_from(root@, home@, i as int, shown(notes@), r.0, r.1@),
    {
        if i < 8 {
            let dir = wsl_dotfiles_of(root);
            let path = join(dir.as_str(), dotfile_at(i));
            (WslImport::CheckingFile { home, index: i }, Action::with(notes, Effect::PathExists(path)))
        } else {
            self.import_dir_from(root, home, 0, notes)
        }
    }

    /// The next move of a WSL dotfiles import.
    pub fn import_step(&self, root: &str, stage: WslImport, reply: Reply) -> (r: (WslImport, Action))
        requires
            answers(stage.awaiting(), reply),
            import_converts(stage, reply) ==> slicable(root@),
        ensures
            wsl_import_moves(self.distro@, root@, stage, reply, r.0, r.1@),
    {
        let dir = wsl_dotfiles_of(root);
        match (stage, reply) {
            (WslImport::Checking(s), reply) => match self.availability_step(" WSL import.", s, reply) {
                Some((Some(n), a)) => (WslImport::Checking(n), a),
                Some((None, a)) => (WslImport::Over, a),
                None => (WslImport::CheckingDotfiles, Action::just(Effect::PathExists(dir))),
            },
            (WslImport::CheckingDotfiles, Reply::Flag(false)) => {
                let text = concat3("No WSL dotfiles found at ", dir.as_str(), ". Skipping.");
                (WslImport::Over, Action::noted(Level::Warning, text, Effect::Finish(Ok(()))))
            },
            (WslImport::CheckingDotfiles, Reply::Flag(true)) => (
                WslImport::ReadingHome,
                Action::just(Effect::Run(self.run_wsl("echo $HOME"))),
            ),
            (WslImport::ReadingHome, Reply::Ran(Err(e))) => (WslImport::Over, Action::finish(Err(e))),
            (WslImport::ReadingHome, Reply::Ran(Ok(o))) => {
                let home = trim(o.stdout.as_str());
                let mut notes = Vec::new();
                add_note(&mut notes, Level::Info, concat("WSL Home: ", home.as_str()));
                assert(shown(notes@) =~= seq![info("WSL Home: "@ + home@)]);
                self.import_file_from(root, home, 0, notes)
            },
            (WslImport::CheckingFile { home, index }, Reply::Flag(false)) => {
                let r = self.import_file_from(root, home, index + 1, Vec::new());
                assert(shown(Seq::<Note>::empty()) =~= seq![]);
                r
            },
            (WslImport::CheckingFile { home, index }, Reply::Flag(true)) => {
                let src = join(dir.as_str(), dotfile_at(index));
                proof {
                    lemma_wsl_paths_slicable(root@, wsl_dotfile(index as int));
                }
                match to_wsl_path(src.as_str()) {
                    Err(e) => (WslImport::Over, Action::finish(Err(e))),
                    Ok(source) => {
                        let dest = home_path(home.as_str(), dotfile_at(index));
                        let cmd = backup_text(dest.as_str());
                        let c = self.run_wsl(cmd.as_str());
                        (WslImport::BackingUp { home, index, source }, Action::just(Effect::Run(c)))
                    },
                }
            },
            (WslImport::BackingUp { .. }, Reply::Ran(Err(e))) => (WslImport::Over, Action::finish(Err(e))),
            (WslImport::BackingUp { home, index, source }, Reply::Ran(Ok(_))) => {
                let dest = home_path(home.as_str(), dotfile_at(index));
                let cmd = copy_text(source.as_str(), dest.as_str());
                let c = self.run_wsl(cmd.as_str());
                (WslImport::CopyingFile { home, index }, Action::just(Effect::Run(c)))
            },
            (WslImport::CopyingFile { .. }, Reply::Ran(Err(e))) => (WslImport::Over, Action::finish(Err(e))),
            (WslImport::CopyingFile { home, index }, Reply::Ran(Ok(_))) => {
                let mut notes = Vec::new();
                add_note(&mut notes, Level::Success, concat("Imported: ", dotfile_at(index)));
                assert(shown(notes@) =~= seq![success("Imported: "@ + wsl_dotfile(index as int))]);
                self.import_file_from(root, home, index + 1, notes)
            },
            (WslImport::CheckingDir { home, index }, Reply::Flag(false)) => {
                let r = self.import_dir_from(root, home, index + 1, Vec::new());
                assert(shown(Seq::<Note>::empty()) =~= seq![]);
                r
            },
            (WslImport::CheckingDir { home, index }, Reply::Flag(true)) => {
                let src = join(dir.as_str(), dotdir_at(index));
                proof {
                    lemma_wsl_paths_slicable(root@, wsl_dotdir(index as int));
                }
                match to_wsl_path(src.as_str()) {
                    Err(e) => (WslImport::Over, Action::finish(Err(e))),
                    Ok(source) => {
                        let dest = home_path(home.as_str(), dotdir_at(index));
                        let cmd = wrap("mkdir -p '", dest.as_str(), "'");
                        let c = self.run_wsl(cmd.as_str());
                        (WslImport::MakingDir { home, index, source }, Action::just(Effect::Run(c)))
                    },
                }
            },
            (WslImport::MakingDir { .. }, Reply::Ran(Err(e))) => (WslImport::Over, Action::finish(Err(e))),
            (WslImport::MakingDir { home, index, source }, Reply::Ran(Ok(_))) => {
                let dest = home_path(home.as_str(), dotdir_at(index));
                let cmd = tar_copy_text(source.as_str(), dest.as_str());
                let c = self.run_wsl(cmd.as_str());
                (WslImport::CopyingDir { home, index }, Action::just(Effect::Run(c)))
            },
            (WslImport::CopyingDir { .. }, Reply::Ran(Err(e))) => (WslImport::Over, Action::finish(Err(e))),
            (WslImport::CopyingDir { home, index }, Reply::Ran(Ok(_))) => {
                let name = dotdir_at(index);
                let mut notes = Vec::new();
                add_note(&mut notes, Level::Success, concat3("Imported directory: ", name, "/"));
                assert(shown(notes@) =~= dir_copied_notes("Imported"@, index as int)) by {
                    assert("Imported"@ + " directory: "@ =~= "Imported directory: "@) by {
                        reveal_strlit("Imported");
                        reveal_strlit(" directory: ");
                        reveal_strlit("Imported directory: ");
                    }
                }
                if same_text(name, ".ssh") {
                    add_note(&mut notes, Level::Info, owned("Setting correct permissions for .ssh..."));
                    let dest = home_path(home.as_str(), name);
                    let cmd = ssh_permissions_text(dest.as_str());
                    let c = self.run_wsl(cmd.as_str());
                    (WslImport::FixingPermissions { home, index }, Action::with(notes, Effect::Run(c)))
                } else {
                    self.import_dir_from(root, home, index + 1, notes)
                }
            },
            (WslImport::FixingPermissions { .. }, Reply::Ran(Err(e))) => (WslImport::Over, Action::finish(Err(e))),
            (WslImport::FixingPermissions { home, index }, Reply::Ran(Ok(_))) => {
                let r = self.import_dir_from(root, home, index + 1, Vec::new());
                assert(shown(Seq::<Note>::empty()) =~= seq![]);
                r
            },
            _ => {
                assert(false);
                (WslImport::Over, Action::finish(Ok(())))
            },
        }
    }
}

/// Progress of a WSL package upgrade.
pub enum WslUpgrade {
    Checking(Availability),
    Upgrading,
    Over,
}

impl WslUpgrade {
    /// How far the upgrade is from its end: lower at every move.
    pub open spec fn rank(self) -> (nat, nat) {
        match self {
            WslUpgrade::Checking(s) => (2 + s.rank(), 0),
            WslUpgrade::Upgrading => (1, 0),
            WslUpgrade::Over => (0, 0),
        }
    }

    /// The reply this stage waits for.
    pub open spec fn awaiting(self) -> Awaiting {
        match self {
            WslUpgrade::Checking(s) => s.awaiting(),
            WslUpgrade::Upgrading => Awaiting::Ran,
            WslUpgrade::Over => Awaiting::Nothing,
        }
    }

    /// The reply this stage waits for.
    pub fn awaits(&self) -> (w: Awaiting)
        ensures
            w == self.awaiting(),
    {
        match self {
            WslUpgrade::Checking(s) => s.awaits(),
            WslUpgrade::Upgrading => Awaiting::Ran,
            WslUpgrade::Over => Awaiting::Nothing,
        }
    }
}

/// One move of a WSL upgrade: when the distro is installed, update, upgrade and
/// autoremove its apt packages; a failure is reported, not returned.
pub open spec fn wsl_upgrade_moves(distro: Seq<char>, stage: WslUpgrade, reply: Reply, next: WslUpgrade, a: ActionView) -> bool {
    match (stage, reply) {
        (WslUpgrade::Checking(s), _) => {
            ||| next matches WslUpgrade::Checking(n) && availability_moves(distro, "."@, s, reply, Some(n), a, false)
            ||| next == WslUpgrade::Over && availability_moves(distro, "."@, s, reply, None, a, false)
            ||| next == WslUpgrade::Upgrading && availability_moves(distro, "."@, s, reply, None, quiet(done()), true)
                && a == with_notes(seq![info("Updating apt packages in WSL..."@)], in_wsl(distro, apt_upgrade()))
        },
        (WslUpgrade::Upgrading, Reply::Ran(Ok(_))) => next == WslUpgrade::Over && a == with_notes(
            seq![success("WSL packages updated."@)],
            done(),
        ),
        (WslUpgrade::Upgrading, Reply::Ran(Err(e))) => next == WslUpgrade::Over && a == with_notes(
            seq![warning("WSL upgrade encountered issues: "@ + error_text(e@))],
            done(),
        ),
        _ => false,
    }
}

impl Wsl {
    /// The next move of a WSL package upgrade.
    pub fn upgrade_step(&self, stage: WslUpgrade, reply: Reply) -> (r: (WslUpgrade, Action))
        requires
            answers(stage.awaiting(), reply),
        ensures
            wsl_upgrade_moves(self.distro@, stage, reply, r.0, r.1@),
    {
        match (stage, reply) {
            (WslUpgrade::Checking(s), reply) => match self.availability_step(".", s, reply) {
                Some((Some(n), a)) => (WslUpgrade::Checking(n), a),
                Some((None, a)) => (WslUpgrade::Over, a),
                None => {
                    let c = self.run_wsl("sudo apt-get update -y && sudo apt-get upgrade -y && sudo apt-get autoremove -y");
                    (
                        WslUpgrade::Upgrading,
                        Action::noted(Level::Info, owned("Updating apt packages in WSL..."), Effect::Run(c)),
                    )
                },
            },
            (WslUpgrade::Upgrading, Reply::Ran(Ok(_))) => (
                WslUpgrade::Over,
                Action::noted(Level::Success, owned("WSL packages updated."), Effect::Finish(Ok(()))),
            ),
            (WslUpgrade::Upgrading, Reply::Ran(Err(e))) => {
                let m = e.message();
                let text = concat("WSL upgrade encountered issues: ", m.as_str());
                (WslUpgrade::Over, Action::noted(Level::Warning, text, Effect::Finish(Ok(()))))
            },
            _ => {
                assert(false);
                (WslUpgrade::Over, Action::finish(Ok(())))
            },
        }
    }
}

/// An import overwrites a dotfile in the WSL home only right after backing up
/// that same file: it reaches the copy of dotfile `i` only from the backup of
/// dotfile `i` into the same home, once the backup command has run, and it
/// reaches that backup only from finding dotfile `i` in the configuration.
pub proof fn lemma_import_backs_up_first(
    distro: Seq<char>,
    root: Seq<char>,
    stage: WslImport,
    reply: Reply,
    next: WslImport,
    a: ActionView,
)
    requires
        answers(stage.awaiting(), reply),
        wsl_import_moves(distro, root, stage, reply, next, a),
    ensures
        next matches WslImport::CopyingFile { home, index } ==> {
            &&& stage matches WslImport::BackingUp { home: h, index: k, source }
            &&& h == home && k == index
            &&& reply matches Reply::Ran(Ok(_))
            &&& a.effect == in_wsl(distro, copy_file(source@, in_home(home@, wsl_dotfile(index as int))))
        },
        next matches WslImport::BackingUp { home, index, .. } ==> {
            &&& stage matches WslImport::CheckingFile { home: h, index: k }
            &&& h == home && k == index
            &&& reply == Reply::Flag(true)
            &&& a.effect == in_wsl(distro, backup_file(in_home(home@, wsl_dotfile(index as int))))
        },
{
}

/// The reply to the listing of distros names the distro.
pub open spec fn distro_listed(distro: Seq<char>, s: Availability, reply: Reply) -> bool {
    &&& s == Availability::ListingDistros
    &&& reply matches Reply::Ran(o) && lists_distro(distro, o)
}

/// The effect runs a command inside a distro (`wsl -d ...`).
pub open spec fn runs_in_distro(e: EffectView) -> bool {
    e matches EffectView::Run(p, args) && p == "wsl"@ && args.len() > 0 && args[0] == "-d"@
}

/// Listing the distros runs no command inside one.
proof fn lemma_listing_not_in_distro()
    ensures
        !runs_in_distro(EffectView::Run("wsl"@, seq!["-l"@, "-q"@])),
{
    reveal_strlit("-l");
    reveal_strlit("-d");
    assert("-l"@[1] != "-d"@[1]);
}

/// An export works in the distro only once WSL is installed and lists the
/// distro: a move that runs a command in a distro, or leaves the availability
/// check other than by ending, starts from a stage past the check or from the
/// listing that names the distro.
pub proof fn lemma_export_needs_distro(
    distro: Seq<char>,
    root: Seq<char>,
    stage: WslExport,
    reply: Reply,
    next: WslExport,
    a: ActionView,
)
    requires
        wsl_export_moves(distro, root, stage, reply, next, a),
    ensures
        stage matches WslExport::Checking(s) ==> (runs_in_distro(a.effect) ==> distro_listed(distro, s, reply)),
        stage matches WslExport::Checking(s) ==> (!(next is Checking) && next != WslExport::Over ==> distro_listed(
            distro,
            s,
            reply,
        )),
{
    lemma_listing_not_in_distro();
}

/// An import works in the distro only once WSL is installed and lists the
/// distro (as for an export).
pub proof fn lemma_import_needs_distro(
    distro: Seq<char>,
    root: Seq<char>,
    stage: WslImport,
    reply: Reply,
    next: WslImport,
    a: ActionView,
)
    requires
        wsl_import_moves(distro, root, stage, reply, next, a),
    ensures
        stage matches WslImport::Checking(s) ==> (runs_in_distro(a.effect) ==> distro_listed(distro, s, reply)),
        stage matches WslImport::Checking(s) ==> (!(next is Checking) && next != WslImport::Over ==> distro_listed(
            distro,
            s,
            reply,
        )),
{
    lemma_listing_not_in_distro();
}

/// An upgrade works in the distro only once WSL is installed and lists the
/// distro (as for an export).
pub proof fn lemma_upgrade_needs_distro(distro: Seq<char>, stage: WslUpgrade, reply: Reply, next: WslUpgrade, a: ActionView)
    requires
        wsl_upgrade_moves(distro, stage, reply, next, a),
    ensures
        stage matches WslUpgrade::Checking(s) ==> (runs_in_distro(a.effect) ==> distro_listed(distro, s, reply)),
        stage matches WslUpgrade::Checking(s) ==> (!(next is Checking) && next != WslUpgrade::Over ==> distro_listed(
            distro,
            s,
            reply,
        )),
{
    lemma_listing_not_in_distro();
}

/// A WSL export creates and overwrites files only below the config root (the
/// directories it copies with tar go to the WSL form of such paths).
pub proof fn lemma_export_inside_root(
    distro: Seq<char>,
    root: Seq<char>,
    stage: WslExport,
    reply: Reply,
    next: WslExport,
    a: ActionView,
)
    requires
        wsl_export_moves(distro, root, stage, reply, next, a),
    ensures
        written(a.effect) is Some ==> under(root, written(a.effect)->0),
{
    reveal_strlit("dotfiles");
    reveal_strlit("wsl");
    reveal_strlit("installed-packages.txt");
    reveal_strlit(".bashrc");
    reveal_strlit(".zshrc");
    reveal_strlit(".profile");
    reveal_strlit(".bash_profile");
    reveal_strlit(".bash_aliases");
    reveal_strlit(".gitconfig");
    reveal_strlit(".vimrc");
    reveal_strlit(".tmux.conf");
    reveal_strlit(".ssh");
    reveal_strlit(".config/starship");
    reveal_strlit(".oh-my-zsh/custom");
    let dir = wsl_dotfiles(root);
    lemma_joined2_under(root, "dotfiles"@, "wsl"@);
    assert forall|name: Seq<char>| name.len() > 0 implies under(root, #[trigger] joined(dir, name)) by {
        lemma_joined_under(dir, name);
        lemma_under_transitive(root, dir, joined(dir, name));
    }
    assert forall|i: int| #[trigger] wsl_dotfile(i).len() > 0 by {}
    assert forall|j: int| #[trigger] wsl_dotdir(j).len() > 0 by {}
}

/// Once an import has copied `.ssh` into the WSL home, its next command
/// restricts the permissions of that directory and of the keys in it.
pub proof fn lemma_import_protects_ssh(
    distro: Seq<char>,
    root: Seq<char>,
    stage: WslImport,
    reply: Reply,
    next: WslImport,
    a: ActionView,
)
    requires
        wsl_import_moves(distro, root, stage, reply, next, a),
    ensures
        stage matches WslImport::CopyingDir { home, index } ==> (wsl_dotdir(index as int) == ".ssh"@ ==> ((
        reply matches Reply::Ran(Ok(_))) ==> a.effect == in_wsl(distro, ssh_permissions(in_home(home@, ".ssh"@))))),
{
}

/// A WSL export looks, after the last dotfile, at each of the three
/// dot-directories `.ssh`, `.config/starship` and `.oh-my-zsh/custom` in turn
/// (`test -d` in the WSL home), and lists the apt packages only after the last
/// of them; a directory the distro has is copied with tar into the directory of
/// the same name under `<root>\dotfiles\wsl`, which the export first creates.
pub proof fn lemma_export_visits_every_dir(
    distro: Seq<char>,
    root: Seq<char>,
    stage: WslExport,
    reply: Reply,
    next: WslExport,
    a: ActionView,
)
    requires
        answers(stage.awaiting(), reply),
        wsl_export_moves(distro, root, stage, reply, next, a),
    ensures
        wsl_dotdir(0) == ".ssh"@,
        wsl_dotdir(1) == ".config/starship"@,
        wsl_dotdir(2) == ".oh-my-zsh/custom"@,
        next matches WslExport::CheckingDir { home, index } ==> {
            &&& index < 3
            &&& a.effect == EffectView::Run(
                "wsl"@,
                seq!["-d"@, distro, "--"@, "bash"@, "-c"@, "test -d '"@ + (home@ + "/"@ + wsl_dotdir(index as int)) + "' && echo yes || echo no"@],
            )
            &&& index == 0 ==> (stage matches WslExport::CheckingFile { index: i, .. } && i == 7) || (
            stage matches WslExport::WritingFile { index: i, .. } && i == 7)
            &&& index > 0 ==> (stage matches WslExport::CheckingDir { index: j, .. } && j + 1 == index) || (
            stage matches WslExport::CopyingDir { index: j, .. } && j + 1 == index)
        },
        next is ListingPackages ==> (stage matches WslExport::CheckingDir { index, .. } && index == 2) || (
        stage matches WslExport::CopyingDir { index, .. } && index == 2),
        stage matches WslExport::CheckingDir { home, index } ==> ((reply matches Reply::Ran(o) && says_yes(o)) ==> {
            &&& next == (WslExport::CreatingDestDir { home, index })
            &&& a.effect == EffectView::EnsureDir(joined(joined(joined(root, "dotfiles"@), "wsl"@), wsl_dotdir(index as int)))
        }),
        stage matches WslExport::CreatingDestDir { home, index } ==> ((reply matches Reply::Done(Ok(_)) && has_drive(
            joined(joined(joined(root, "dotfiles"@), "wsl"@), wsl_dotdir(index as int)),
        )) ==> {
            &&& next == (WslExport::CopyingDir { home, index })
            &&& a.effect == EffectView::Run(
                "wsl"@,
                seq![
                    "-d"@,
                    distro,
                    "--"@,
                    "bash"@,
                    "-c"@,
                    "cd '"@ + (home@ + "/"@ + wsl_dotdir(index as int)) + "' && tar cf - . 2>/dev/null | (cd '"@ + wsl_form(
                        joined(joined(joined(root, "dotfiles"@), "wsl"@), wsl_dotdir(index as int)),
                    ) + "' && tar xf -)"@,
                ],
            )
        }),
{
}

/// The WSL dotfiles, in order: `.bashrc`, `.zshrc`, `.profile`,
/// `.bash_profile`, `.bash_aliases`, `.gitconfig`, `.vimrc`, `.tmux.conf`.
pub proof fn lemma_dotfiles()
    ensures
        wsl_dotfile(0) == ".bashrc"@,
        wsl_dotfile(1) == ".zshrc"@,
        wsl_dotfile(2) == ".profile"@,
        wsl_dotfile(3) == ".bash_profile"@,
        wsl_dotfile(4) == ".bash_aliases"@,
        wsl_dotfile(5) == ".gitconfig"@,
        wsl_dotfile(6) == ".vimrc"@,
        wsl_dotfile(7) == ".tmux.conf"@,
{
}

/// A WSL export looks at each of the eight dotfiles in turn, first to last,
/// once it knows the home directory (`test -f` in the WSL home); a dotfile the
/// distro has is read with `cat` and its text written to the file of the same
/// name under `<root>\dotfiles\wsl`.
pub proof fn lemma_export_visits_every_file(
    distro: Seq<char>,
    root: Seq<char>,
    stage: WslExport,
    reply: Reply,
    next: WslExport,
    a: ActionView,
)
    requires
        answers(stage.awaiting(), reply),
        wsl_export_moves(distro, root, stage, reply, next, a),
    ensures
        next matches WslExport::CheckingFile { home, index } ==> {
            &&& index < 8
            &&& a.effect == EffectView::Run(
                "wsl"@,
                seq!["-d"@, distro, "--"@, "bash"@, "-c"@, "test -f '"@ + (home@ + "/"@ + wsl_dotfile(index as int)) + "' && echo yes || echo no"@],
            )
            &&& index == 0 ==> stage is ReadingHome
            &&& index > 0 ==> (stage matches WslExport::CheckingFile { index: j, .. } && j + 1 == index) || (
            stage matches WslExport::WritingFile { index: j, .. } && j + 1 == index)
        },
        stage matches WslExport::CheckingFile { home, index } ==> ((reply matches Reply::Ran(o) && says_yes(o)) ==> {
            &&& next == (WslExport::ReadingFile { home, index })
            &&& a.effect == EffectView::Run(
                "wsl"@,
                seq!["-d"@, distro, "--"@, "bash"@, "-c"@, "cat '"@ + (home@ + "/"@ + wsl_dotfile(index as int)) + "'"@],
            )
        }),
        stage matches WslExport::ReadingFile { index, .. } ==> (reply matches Reply::Ran(Ok(o)) ==> next matches WslExport::CreatingFileDir {
            index: k,
            contents,
            ..
        } && k == index && contents == o.stdout),
        stage matches WslExport::CreatingFileDir { index, contents, .. } ==> (reply matches Reply::Done(Ok(_)) ==> a.effect
            == EffectView::WriteFile(joined(joined(joined(root, "dotfiles"@), "wsl"@), wsl_dotfile(index as int)), contents@)),
{
}

/// A WSL import looks at each of the eight dotfiles and then each of the three
/// dot-directories of `<root>\dotfiles\wsl` in turn, first to last, and ends
/// successfully only after the last directory.
pub proof fn lemma_import_visits_everything(
    distro: Seq<char>,
    root: Seq<char>,
    stage: WslImport,
    reply: Reply,
    next: WslImport,
    a: ActionView,
)
    requires
        answers(stage.awaiting(), reply),
        wsl_import_moves(distro, root, stage, reply, next, a),
    ensures
        next matches WslImport::CheckingFile { index, .. } ==> {
            &&& index < 8
            &&& a.effect == EffectView::PathExists(joined(joined(joined(root, "dotfiles"@), "wsl"@), wsl_dotfile(index as int)))
            &&& index == 0 ==> stage is ReadingHome
            &&& index > 0 ==> (stage matches WslImport::CheckingFile { index: j, .. } && j + 1 == index) || (
            stage matches WslImport::CopyingFile { index: j, .. } && j + 1 == index)
        },
        next matches WslImport::CheckingDir { index, .. } ==> {
            &&& index < 3
            &&& a.effect == EffectView::PathExists(joined(joined(joined(root, "dotfiles"@), "wsl"@), wsl_dotdir(index as int)))
            &&& index == 0 ==> (stage matches WslImport::CheckingFile { index: j, .. } && j == 7) || (
            stage matches WslImport::CopyingFile { index: j, .. } && j == 7)
            &&& index > 0 ==> (stage matches WslImport::CheckingDir { index: j, .. } && j + 1 == index) || (
            stage matches WslImport::CopyingDir { index: j, .. } && j + 1 == index) || (
            stage matches WslImport::FixingPermissions { index: j, .. } && j + 1 == index)
        },
        (next == WslImport::Over && a.effect == EffectView::Finish(Ok(())) && !(stage is Checking) && !(
        stage is CheckingDotfiles)) ==> {
            ||| stage matches WslImport::CheckingDir { index, .. } && index == 2
            ||| stage matches WslImport::CopyingDir { index, .. } && index == 2
            ||| stage matches WslImport::FixingPermissions { index, .. } && index == 2
        },
{
}

} // verus!
