//! The effects a job asks for, and the replies it gets back.

use crate::components::vscode::{ExtensionFolder, ExtensionsConfig};
use crate::error::{BootstrapError, ErrorView};
use crate::utils::shell::{arg_texts, CommandResult, CommandSpec};
use vstd::prelude::*;

verus! {

/// How a message is shown.
#[derive(Clone, Copy, Debug, PartialEq, Eq, Structural)]
pub enum Level {
    Info,
    Success,
    Warning,
}

/// A message for the user.
#[derive(Debug, PartialEq, Eq)]
pub struct Note {
    pub level: Level,
    pub text: String,
}

/// One effect on the machine.
#[derive(Debug, PartialEq, Eq)]
pub enum Effect {
    /// Is the program on the PATH?  Reply: `Flag`.
    CommandExists(String),
    /// Does the path exist?  Reply: `Flag`.
    PathExists(String),
    /// Create the directory and its parents unless it exists.  Reply: `Done`
    /// (an I/O error names the directory).
    EnsureDir(String),
    /// Copy a file.  Reply: `Done` (an I/O error names the source).
    CopyFile { from: String, to: String },
    /// Write a file.  Reply: `Done` (an I/O error names the file).
    WriteFile { path: String, contents: String },
    /// Remove a file, ignoring failure.  Reply: `Done(Ok)`.
    RemoveFile(String),
    /// The path of a file of this name in the temporary directory.  Reply: `Path`.
    TempPath(String),
    /// Run a program capturing its output.  Reply: `Ran`.
    Run(CommandSpec),
    /// Run a program showing its output.  Reply: `Ran`.
    RunInteractive(CommandSpec),
    /// Read a text file.  Reply: `Text`.
    ReadFile(String),
    /// Read and parse an extension list file.  Reply: `Extensions`.
    LoadExtensions(String),
    /// Write an extension list file as pretty JSON.  Reply: `Done`.
    SaveExtensions { path: String, config: ExtensionsConfig },
    /// List the extension folders of a directory.  Reply: `Folders`.
    ScanExtensions(String),
    /// The job is over, with this outcome.
    Finish(Result<(), BootstrapError>),
}

/// Messages to show, then an effect to perform.
#[derive(Debug, PartialEq, Eq)]
pub struct Action {
    pub notes: Vec<Note>,
    pub effect: Effect,
}

/// What performing an effect gave.
#[derive(Debug, PartialEq, Eq)]
pub enum Reply {
    /// No effect was performed yet.
    Begin,
    Flag(bool),
    Done(Result<(), BootstrapError>),
    Path(String),
    Ran(Result<CommandResult, BootstrapError>),
    Text(Result<String, BootstrapError>),
    Extensions(Result<ExtensionsConfig, BootstrapError>),
    Folders(Result<Vec<ExtensionFolder>, BootstrapError>),
}

/// The kind of reply a job waits for.
#[derive(Clone, Copy, Debug, PartialEq, Eq, Structural)]
pub enum Awaiting {
    Begin,
    Flag,
    Done,
    Path,
    Ran,
    Text,
    Extensions,
    Folders,
    Nothing,
}

/// The reply is of the awaited kind.
pub open spec fn answers(w: Awaiting, r: Reply) -> bool {
    match (w, r) {
        (Awaiting::Begin, Reply::Begin) => true,
        (Awaiting::Flag, Reply::Flag(_)) => true,
        (Awaiting::Done, Reply::Done(_)) => true,
        (Awaiting::Path, Reply::Path(_)) => true,
        (Awaiting::Ran, Reply::Ran(_)) => true,
        (Awaiting::Text, Reply::Text(_)) => true,
        (Awaiting::Extensions, Reply::Extensions(_)) => true,
        (Awaiting::Folders, Reply::Folders(_)) => true,
        _ => false,
    }
}

/// Whether a reply is of the awaited kind.
pub fn reply_answers(w: Awaiting, r: &Reply) -> (b: bool)
    ensures
        b == answers(w, *r),
{
    match (w, r) {
        (Awaiting::Begin, Reply::Begin) => true,
        (Awaiting::Flag, Reply::Flag(_)) => true,
        (Awaiting::Done, Reply::Done(_)) => true,
        (Awaiting::Path, Reply::Path(_)) => true,
        (Awaiting::Ran, Reply::Ran(_)) => true,
        (Awaiting::Text, Reply::Text(_)) => true,
        (Awaiting::Extensions, Reply::Extensions(_)) => true,
        (Awaiting::Folders, Reply::Folders(_)) => true,
        _ => false,
    }
}

/// The kind of reply an effect gets; after `Finish` the job waits for none.
pub open spec fn reply_to(e: EffectView) -> Awaiting {
    match e {
        EffectView::CommandExists(_) | EffectView::PathExists(_) => Awaiting::Flag,
        EffectView::EnsureDir(_) | EffectView::CopyFile(_, _) | EffectView::WriteFile(_, _) | EffectView::RemoveFile(
            _,
        ) | EffectView::SaveExtensions(_, _) => Awaiting::Done,
        EffectView::TempPath(_) => Awaiting::Path,
        EffectView::Run(_, _) | EffectView::RunInteractive(_, _) => Awaiting::Ran,
        EffectView::ReadFile(_) => Awaiting::Text,
        EffectView::LoadExtensions(_) => Awaiting::Extensions,
        EffectView::ScanExtensions(_) => Awaiting::Folders,
        EffectView::Finish(_) => Awaiting::Nothing,
    }
}

/// The effect runs the program.
pub open spec fn runs_program(e: EffectView, program: Seq<char>) -> bool {
    ||| e matches EffectView::Run(p, _) && p == program
    ||| e matches EffectView::RunInteractive(p, _) && p == program
}

/// The file or directory the effect creates or overwrites, if any.
pub open spec fn written(e: EffectView) -> Option<Seq<char>> {
    match e {
        EffectView::EnsureDir(p) => Some(p),
        EffectView::CopyFile(_, to) => Some(to),
        EffectView::WriteFile(p, _) => Some(p),
        EffectView::SaveExtensions(p, _) => Some(p),
        _ => None,
    }
}

/// An effect as character sequences.
pub enum EffectView {
    CommandExists(Seq<char>),
    PathExists(Seq<char>),
    EnsureDir(Seq<char>),
    CopyFile(Seq<char>, Seq<char>),
    WriteFile(Seq<char>, Seq<char>),
    RemoveFile(Seq<char>),
    TempPath(Seq<char>),
    Run(Seq<char>, Seq<Seq<char>>),
    RunInteractive(Seq<char>, Seq<Seq<char>>),
    ReadFile(Seq<char>),
    LoadExtensions(Seq<char>),
    SaveExtensions(Seq<char>, Seq<Seq<char>>),
    ScanExtensions(Seq<char>),
    Finish(Result<(), ErrorView>),
}

impl View for Effect {
    type V = EffectView;

    open spec fn view(&self) -> EffectView {
        match self {
            Effect::CommandExists(p) => EffectView::CommandExists(p@),
            Effect::PathExists(p) => EffectView::PathExists(p@),
            Effect::EnsureDir(p) => EffectView::EnsureDir(p@),
            Effect::CopyFile { from, to } => EffectView::CopyFile(from@, to@),
            Effect::WriteFile { path, contents } => EffectView::WriteFile(path@, contents@),
            Effect::RemoveFile(p) => EffectView::RemoveFile(p@),
            Effect::TempPath(p) => EffectView::TempPath(p@),
            Effect::Run(c) => EffectView::Run(c.program@, arg_texts(c.args)),
            Effect::RunInteractive(c) => EffectView::RunInteractive(c.program@, arg_texts(c.args)),
            Effect::ReadFile(p) => EffectView::ReadFile(p@),
            Effect::LoadExtensions(p) => EffectView::LoadExtensions(p@),
            Effect::SaveExtensions { path, config } => EffectView::SaveExtensions(
                path@,
                arg_texts(config.extensions),
            ),
            Effect::ScanExtensions(p) => EffectView::ScanExtensions(p@),
            Effect::Finish(Ok(())) => EffectView::Finish(Ok(())),
            Effect::Finish(Err(e)) => EffectView::Finish(Err(e@)),
        }
    }
}

/// A message as a level and characters.
pub open spec fn note_view(n: Note) -> (Level, Seq<char>) {
    (n.level, n.text@)
}

/// An action as its messages and its effect.
pub struct ActionView {
    pub notes: Seq<(Level, Seq<char>)>,
    pub effect: EffectView,
}

impl View for Action {
    type V = ActionView;

    open spec fn view(&self) -> ActionView {
        ActionView { notes: self.notes@.map_values(|n: Note| note_view(n)), effect: self.effect@ }
    }
}

/// An action with messages.
pub open spec fn with_notes(notes: Seq<(Level, Seq<char>)>, effect: EffectView) -> ActionView {
    ActionView { notes, effect }
}

/// An action without messages.
pub open spec fn quiet(effect: EffectView) -> ActionView {
    ActionView { notes: seq![], effect }
}

/// The effect ending a job with an error.
pub open spec fn fail(e: ErrorView) -> EffectView {
    EffectView::Finish(Err(e))
}

/// The effect ending a job successfully.
pub open spec fn done() -> EffectView {
    EffectView::Finish(Ok(()))
}

/// An informational message.
pub open spec fn info(t: Seq<char>) -> (Level, Seq<char>) {
    (Level::Info, t)
}

/// A success message.
pub open spec fn success(t: Seq<char>) -> (Level, Seq<char>) {
    (Level::Success, t)
}

/// A warning message.
pub open spec fn warning(t: Seq<char>) -> (Level, Seq<char>) {
    (Level::Warning, t)
}

/// The messages of a list, as levels and characters.
pub open spec fn shown(v: Seq<Note>) -> Seq<(Level, Seq<char>)> {
    v.map_values(|n: Note| note_view(n))
}

/// Adds a message to a list.
pub fn add_note(notes: &mut Vec<Note>, level: Level, text: String)
    ensures
        shown(final(notes)@) == shown(old(notes)@).push((level, text@)),
{
    notes.push(Note { level, text });
    assert(shown(final(notes)@) =~= shown(old(notes)@).push((level, text@)));
}

impl Action {
    /// An action after the given messages.
    pub fn with(notes: Vec<Note>, effect: Effect) -> (a: Action)
        ensures
            a@ == with_notes(shown(notes@), effect@),
    {
        Action { notes, effect }
    }

    /// An action without messages.
    pub fn just(effect: Effect) -> (a: Action)
        ensures
            a@ == quiet(effect@),
    {
        let a = Action { notes: Vec::new(), effect };
        assert(a@.notes =~= seq![]);
        a
    }

    /// An action preceded by one message.
    pub fn noted(level: Level, text: String, effect: Effect) -> (a: Action)
        ensures
            a@ == with_notes(seq![(level, text@)], effect@),
    {
        let a = Action { notes: vec![Note { level, text }], effect };
        assert(a@.notes =~= seq![(level, text@)]);
        a
    }

    /// The same action with a message shown before it.
    pub fn after(self, level: Level, text: String) -> (a: Action)
        ensures
            a@ == with_notes(seq![(level, text@)] + self@.notes, self@.effect),
    {
        let mut notes = vec![Note { level, text }];
        let ghost first = notes@;
        let mut rest = self.notes;
        notes.append(&mut rest);
        let a = Action { notes, effect: self.effect };
        assert(a@.notes =~= seq![(level, text@)] + self@.notes);
        a
    }

    /// The job's end, with this outcome.
    pub fn finish(outcome: Result<(), BootstrapError>) -> (a: Action)
        ensures
            a@ == quiet(
                match outcome {
                    Ok(()) => done(),
                    Err(e) => fail(e@),
                },
            ),
    {
        Action::just(Effect::Finish(outcome))
    }
}

} // verus!
