//! VS Code component for managing settings and extensions.

use crate::components::effects::{
    answers, done, fail, info, quiet, success, warning, with_notes, Action, ActionView, Awaiting, Effect,
    EffectView, Level, Reply, runs_program, written,
};
use crate::error::{error_text, ErrorView};
use crate::json::{field, parse_json, parsed_json, JsonValue};
use crate::text::{chars_of, concat, concat3, decimal, lex_less, less_than, owned, same_text, string_of, usize_text};
use crate::utils::paths::{
    join, joined, lemma_joined2_under, lemma_joined_under, lemma_under_transitive, under, vscode_extensions_dir, vscode_user_dir,
};
use crate::utils::shell::{arg_texts, command_of, str_texts, CommandSpec};
use vstd::prelude::*;

verus! {

/// VS Code extension list configuration.
#[derive(Debug, PartialEq, Eq)]
pub struct ExtensionsConfig {
    pub extensions: Vec<String>,
}

/// A folder found in the VS Code extensions directory.
#[derive(Debug, PartialEq, Eq)]
pub struct ExtensionFolder {
    /// The folder's name, when it is valid Unicode.
    pub name: Option<String>,
    /// The text of the folder's `package.json`, when it exists and can be read.
    pub manifest: Option<String>,
}

/// The extension id a manifest declares: `publisher.name`, when both are strings.
pub open spec fn manifest_id(m: JsonValue) -> Option<Seq<char>> {
    match (field(m, "publisher"@), field(m, "name"@)) {
        (Some(JsonValue::Str(p)), Some(JsonValue::Str(n))) => Some(p@ + "."@ + n@),
        _ => None,
    }
}

/// The position of the last `-` in `s`, or -1.
pub open spec fn last_dash(s: Seq<char>) -> int
    decreases s.len(),
{
    if s.len() == 0 {
        -1
    } else if s.last() == '-' {
        s.len() - 1
    } else {
        last_dash(s.drop_last())
    }
}

/// An ASCII digit.
pub open spec fn is_ascii_digit(c: char) -> bool {
    48 <= (c as int) <= 57
}

/// The extension id a folder name `publisher.name-version` gives: the name up to
/// its last `-`, when a digit follows that `-`.
pub open spec fn folder_id(name: Seq<char>) -> Option<Seq<char>> {
    let i = last_dash(name);
    if 0 <= i && i + 1 < name.len() && is_ascii_digit(name[i + 1]) {
        Some(name.subrange(0, i))
    } else {
        None
    }
}

/// The extension id of a folder: from its `package.json` when that parses and
/// names one, else from the folder name.
pub open spec fn extension_id(f: ExtensionFolder) -> Option<Seq<char>> {
    if f.manifest is Some && parsed_json(f.manifest->0@) is Some && manifest_id(parsed_json(f.manifest->0@)->0) is Some {
        manifest_id(parsed_json(f.manifest->0@)->0)
    } else {
        match f.name {
            Some(n) => folder_id(n@),
            None => None,
        }
    }
}

/// The texts of a list of strings.
pub open spec fn texts(v: Seq<String>) -> Seq<Seq<char>> {
    v.map_values(|s: String| s@)
}

/// Each text sorts strictly before the next ones.
pub open spec fn strictly_sorted(s: Seq<Seq<char>>) -> bool {
    forall|i: int, j: int| 0 <= i < j < s.len() ==> lex_less(s[i], s[j])
}

/// Some folder has the extension id `x`.
pub open spec fn found_id(folders: Seq<ExtensionFolder>, x: Seq<char>) -> bool {
    exists|i: int| 0 <= i < folders.len() && extension_id(folders[i]) == Some(x)
}

fn last_dash_of(v: &Vec<char>) -> (r: Option<usize>)
    ensures
        match r {
            Some(i) => i == last_dash(v@) && i < v@.len(),
            None => last_dash(v@) == -1,
        },
{
    let mut k = v.len();
    assert(v@.subrange(0, k as int) =~= v@);
    while k > 0
        invariant
            k <= v@.len(),
            last_dash(v@) == last_dash(v@.subrange(0, k as int)),
        decreases k,
    {
        assert(v@.subrange(0, k as int).drop_last() =~= v@.subrange(0, k - 1));
        if v[k - 1] == '-' {
            return Some(k - 1);
        }
        k -= 1;
    }
    None
}

/// The extension id of a folder name, if it has the form `id-<digit>...`.
pub fn id_from_folder_name(name: &str) -> (r: Option<String>)
    ensures
        match folder_id(name@) {
            Some(x) => r matches Some(s) && s@ == x,
            None => r is None,
        },
{
    let chars = chars_of(name);
    proof {
        assert(chars@.subrange(0, chars@.len() as int) =~= chars@);
    }
    match last_dash_of(&chars) {
        Some(i) => {
            if i < chars.len() - 1 && chars[i + 1] >= '0' && chars[i + 1] <= '9' {
                Some(string_of(&chars, 0, i))
            } else {
                None
            }
        },
        None => None,
    }
}

/// The extension id a manifest declares, if it declares one.
pub fn id_from_manifest(m: &JsonValue) -> (r: Option<String>)
    ensures
        match manifest_id(*m) {
            Some(x) => r matches Some(s) && s@ == x,
            None => r is None,
        },
{
    match (m.get("publisher"), m.get("name")) {
        (Some(JsonValue::Str(p)), Some(JsonValue::Str(n))) => Some(concat3(p.as_str(), ".", n.as_str())),
        _ => None,
    }
}

/// The extension id of a folder.
pub fn folder_extension_id(f: &ExtensionFolder) -> (r: Option<String>)
    ensures
        match extension_id(*f) {
            Some(x) => r matches Some(s) && s@ == x,
            None => r is None,
        },
{
    if let Some(text) = &f.manifest {
        if let Ok(m) = parse_json(text.as_str()) {
            if let Some(id) = id_from_manifest(&m) {
                return Some(id);
            }
        }
    }
    match &f.name {
        Some(n) => id_from_folder_name(n.as_str()),
        None => None,
    }
}

/// Adds `s` to a strictly sorted list unless it is there already.
fn insert_sorted(v: &mut Vec<String>, s: String)
    requires
        strictly_sorted(texts(old(v)@)),
    ensures
        strictly_sorted(texts(final(v)@)),
        forall|x: Seq<char>| texts(final(v)@).contains(x) <==> (texts(old(v)@).contains(x) || x == s@),
{
    let ghost before = texts(v@);
    let mut p: usize = 0;
    while p < v.len() && less_than(v[p].as_str(), s.as_str())
        invariant
            p <= v@.len(),
            v@ == old(v)@,
            before == texts(v@),
            strictly_sorted(before),
            forall|k: int| 0 <= k < p ==> lex_less(before[k], s@),
        decreases v@.len() - p,
    {
        p += 1;
    }
    if p < v.len() && same_text(v[p].as_str(), s.as_str()) {
        assert(before[p as int] == s@);
        return;
    }
    proof {
        if p < before.len() {
            crate::text::lemma_lex_total(before[p as int], s@);
        }
        assert forall|k: int| p <= k < before.len() implies lex_less(s@, before[k]) by {
            if k > p {
                crate::text::lemma_lex_transitive(s@, before[p as int], before[k]);
            }
        }
    }
    v.insert(p, s);
    let ghost after = texts(v@);
    assert(after =~= before.insert(p as int, s@));
    assert forall|i: int, j: int| 0 <= i < j < after.len() implies lex_less(after[i], after[j]) by {
        if j < p {
        } else if j == p {
        } else if i < p {
            crate::text::lemma_lex_transitive(after[i], s@, after[j]);
        } else if i == p {
        } else {
        }
    }
    assert forall|x: Seq<char>| after.contains(x) <==> (before.contains(x) || x == s@) by {
        if after.contains(x) {
            let k = choose|k: int| 0 <= k < after.len() && after[k] == x;
            if k < p {
                assert(before[k] == x);
            } else if k > p {
                assert(before[k - 1] == x);
            }
        }
        if before.contains(x) {
            let k = choose|k: int| 0 <= k < before.len() && before[k] == x;
            if k < p {
                assert(after[k] == x);
            } else {
                assert(after[k + 1] == x);
            }
        }
        if x == s@ {
            assert(after[p as int] == x);
        }
    }
}

/// The ids of installed extensions, sorted and without repeats: for each folder,
/// the id its manifest declares, else the id its name gives, when there is one.
pub fn installed_extensions(folders: &Vec<ExtensionFolder>) -> (r: Vec<String>)
    ensures
        strictly_sorted(texts(r@)),
        forall|x: Seq<char>| texts(r@).contains(x) <==> found_id(folders@, x),
{
    let mut r: Vec<String> = Vec::new();
    let mut i: usize = 0;
    while i < folders.len()
        invariant
            i <= folders@.len(),
            strictly_sorted(texts(r@)),
            forall|x: Seq<char>| texts(r@).contains(x) <==> found_id(folders@.subrange(0, i as int), x),
        decreases folders@.len() - i,
    {
        let id = folder_extension_id(&folders[i]);
        let ghost prefix = folders@.subrange(0, i as int);
        let ghost next = folders@.subrange(0, i + 1);
        proof {
            assert forall|x: Seq<char>| found_id(next, x) <==> (found_id(prefix, x) || extension_id(folders@[i as int]) == Some(x)) by {
                if found_id(next, x) {
                    let k = choose|k: int| 0 <= k < next.len() && extension_id(next[k]) == Some(x);
                    if k < i {
                        assert(prefix[k] == next[k]);
                    }
                }
                if found_id(prefix, x) {
                    let k = choose|k: int| 0 <= k < prefix.len() && extension_id(prefix[k]) == Some(x);
                    assert(next[k] == prefix[k]);
                }
                if extension_id(folders@[i as int]) == Some(x) {
                    assert(next[i as int] == folders@[i as int]);
                }
            }
        }
        match id {
            Some(s) => insert_sorted(&mut r, s),
            None => {},
        }
        i += 1;
    }
    assert(folders@.subrange(0, folders@.len() as int) =~= folders@);
    r
}

/// VS Code component handling settings and extensions.
pub struct VsCode;

impl VsCode {
    pub fn new() -> Self {
        VsCode
    }
}

impl Default for VsCode {
    fn default() -> (v: Self)
        ensures
            v == VsCode,
    {
        VsCode::new()
    }
}

/// The settings files that are exported and imported, in order.
pub open spec fn settings_file(i: int) -> Seq<char> {
    if i == 0 {
        "settings.json"@
    } else {
        "keybindings.json"@
    }
}

/// `<root>/dotfiles/vscode`.
pub open spec fn vscode_dotfiles(root: Seq<char>) -> Seq<char> {
    joined(joined(root, "dotfiles"@), "vscode"@)
}

/// `<root>/config/vscode-extensions.json`.
pub open spec fn extensions_file(root: Seq<char>) -> Seq<char> {
    joined(joined(root, "config"@), "vscode-extensions.json"@)
}

/// `code --install-extension <ext> --force`.
pub open spec fn install_extension(ext: Seq<char>) -> EffectView {
    EffectView::Run("code"@, seq!["--install-extension"@, ext, "--force"@])
}

/// Some folder names an extension.
pub open spec fn names_some_extension(folders: Seq<ExtensionFolder>) -> bool {
    exists|i: int| 0 <= i < folders.len() && extension_id(folders[i]) is Some
}

/// Progress of a VS Code export.
pub enum VsCodeExport {
    Start,
    CreatingDotfilesDir,
    CreatingConfigDir,
    CheckingUser { user: String },
    CheckingSetting { user: String, index: usize },
    CopyingSetting { user: String, index: usize },
    CheckingExtensions { dir: String },
    Scanning,
    Saving { count: usize },
    Over,
}

impl VsCodeExport {
    /// How far the export is from its end: lower at every move.
    pub open spec fn rank(self) -> (nat, nat) {
        match self {
            VsCodeExport::Start => (11, 0),
            VsCodeExport::CreatingDotfilesDir => (10, 0),
            VsCodeExport::CreatingConfigDir => (9, 0),
            VsCodeExport::CheckingUser { .. } => (8, 0),
            VsCodeExport::CheckingSetting { index, .. } => ((7 - 2 * index) as nat, 0),
            VsCodeExport::CopyingSetting { index, .. } => ((6 - 2 * index) as nat, 0),
            VsCodeExport::CheckingExtensions { .. } => (3, 0),
            VsCodeExport::Scanning => (2, 0),
            VsCodeExport::Saving { .. } => (1, 0),
            VsCodeExport::Over => (0, 0),
        }
    }

    /// The reply this stage waits for.
    pub open spec fn awaiting(self) -> Awaiting {
        match self {
            VsCodeExport::Start => Awaiting::Begin,
            VsCodeExport::CreatingDotfilesDir => Awaiting::Done,
            VsCodeExport::CreatingConfigDir => Awaiting::Done,
            VsCodeExport::CheckingUser { .. } => Awaiting::Flag,
            VsCodeExport::CheckingSetting { index, .. } => if index < 2 { Awaiting::Flag } else { Awaiting::Nothing },
            VsCodeExport::CopyingSetting { index, .. } => if index < 2 { Awaiting::Done } else { Awaiting::Nothing },
            VsCodeExport::CheckingExtensions { .. } => Awaiting::Flag,
            VsCodeExport::Scanning => Awaiting::Folders,
            VsCodeExport::Saving { .. } => Awaiting::Done,
            VsCodeExport::Over => Awaiting::Nothing,
        }
    }

    /// The reply this stage waits for.
    pub fn awaits(&self) -> (w: Awaiting)
        ensures
            w == self.awaiting(),
    {
        match self {
            VsCodeExport::Start => Awaiting::Begin,
            VsCodeExport::CreatingDotfilesDir => Awaiting::Done,
            VsCodeExport::CreatingConfigDir => Awaiting::Done,
            VsCodeExport::CheckingUser { .. } => Awaiting::Flag,
            VsCodeExport::CheckingSetting { index, .. } => if *index < 2 { Awaiting::Flag } else { Awaiting::Nothing },
            VsCodeExport::CopyingSetting { index, .. } => if *index < 2 { Awaiting::Done } else { Awaiting::Nothing },
            VsCodeExport::CheckingExtensions { .. } => Awaiting::Flag,
            VsCodeExport::Scanning => Awaiting::Folders,
            VsCodeExport::Saving { .. } => Awaiting::Done,
            VsCodeExport::Over => Awaiting::Nothing,
        }
    }
}

/// The text shown before the extension list is gathered.
pub open spec fn listing_note() -> (Level, Seq<char>) {
    info("Exporting VS Code extensions list..."@)
}

/// Start gathering the extension list, after the messages `notes`.
pub open spec fn vscode_listing(notes: Seq<(Level, Seq<char>)>, next: VsCodeExport, a: ActionView) -> bool {
    ||| next == VsCodeExport::Over && a == with_notes(
        notes.push(listing_note()),
        fail(ErrorView::Path("Could not determine home directory"@)),
    )
    ||| {
        &&& next is CheckingExtensions
        &&& exists|home: Seq<char>| next->dir@ == joined(joined(home, ".vscode"@), "extensions"@)
        &&& a == with_notes(notes.push(listing_note()), EffectView::PathExists(next->dir@))
    }
}

/// After settings file `i` of an export: the next file, or the extension list.
pub open spec fn vscode_export_after(
    root: Seq<char>,
    user: Seq<char>,
    i: int,
    notes: Seq<(Level, Seq<char>)>,
    next: VsCodeExport,
    a: ActionView,
) -> bool {
    if i + 1 < 2 {
        next is CheckingSetting && next->CheckingSetting_user@ == user && next->CheckingSetting_index == i + 1
            && a == with_notes(notes, EffectView::PathExists(joined(user, settings_file(i + 1))))
    } else {
        vscode_listing(notes, next, a)
    }
}

/// One move of a VS Code export: copy `settings.json` and `keybindings.json`
/// from the user folder into `<root>/dotfiles/vscode`, then write the sorted
/// list of installed extensions to `<root>/config/vscode-extensions.json`.
pub open spec fn vscode_export_moves(root: Seq<char>, stage: VsCodeExport, reply: Reply, next: VsCodeExport, a: ActionView) -> bool {
    match (stage, reply) {
        (VsCodeExport::Start, _) => next == VsCodeExport::CreatingDotfilesDir && a == quiet(
            EffectView::EnsureDir(vscode_dotfiles(root)),
        ),
        (VsCodeExport::CreatingDotfilesDir, Reply::Done(Err(e))) => next == VsCodeExport::Over && a == quiet(fail(e@)),
        (VsCodeExport::CreatingDotfilesDir, Reply::Done(Ok(()))) => next == VsCodeExport::CreatingConfigDir && a
            == quiet(EffectView::EnsureDir(joined(root, "config"@))),
        (VsCodeExport::CreatingConfigDir, Reply::Done(Err(e))) => next == VsCodeExport::Over && a == quiet(fail(e@)),
        (VsCodeExport::CreatingConfigDir, Reply::Done(Ok(()))) => {
            ||| next == VsCodeExport::Over && a == quiet(fail(ErrorView::Path("Could not determine APPDATA directory"@)))
            ||| {
                &&& next is CheckingUser
                &&& exists|appdata: Seq<char>| next->CheckingUser_user@ == joined(joined(appdata, "Code"@), "User"@)
                &&& a == quiet(EffectView::PathExists(next->CheckingUser_user@))
            }
        },
        (VsCodeExport::CheckingUser { user }, Reply::Flag(true)) => next == (VsCodeExport::CheckingSetting {
            user,
            index: 0,
        }) && a == quiet(EffectView::PathExists(joined(user@, settings_file(0)))),
        (VsCodeExport::CheckingUser { user }, Reply::Flag(false)) => vscode_listing(
            seq![warning("VS Code user folder not found at "@ + user@)],
            next,
            a,
        ),
        (VsCodeExport::CheckingSetting { user, index }, Reply::Flag(true)) => next == (VsCodeExport::CopyingSetting {
            user,
            index,
        }) && a == quiet(
            EffectView::CopyFile(
                joined(user@, settings_file(index as int)),
                joined(vscode_dotfiles(root), settings_file(index as int)),
            ),
        ),
        (VsCodeExport::CheckingSetting { user, index }, Reply::Flag(false)) => vscode_export_after(
            root,
            user@,
            index as int,
            seq![],
            next,
            a,
        ),
        (VsCodeExport::CopyingSetting { .. }, Reply::Done(Err(e))) => next == VsCodeExport::Over && a == quiet(fail(e@)),
        (VsCodeExport::CopyingSetting { user, index }, Reply::Done(Ok(()))) => vscode_export_after(
            root,
            user@,
            index as int,
            seq![success("Exported: "@ + settings_file(index as int))],
            next,
            a,
        ),
        (VsCodeExport::CheckingExtensions { .. }, Reply::Flag(false)) => next == VsCodeExport::Over && a == with_notes(
            seq![info("No VS Code extensions found to export."@)],
            done(),
        ),
        (VsCodeExport::CheckingExtensions { dir }, Reply::Flag(true)) => next == VsCodeExport::Scanning && a == quiet(
            EffectView::ScanExtensions(dir@),
        ),
        (VsCodeExport::Scanning, Reply::Folders(Err(e))) => next == VsCodeExport::Over && a == quiet(fail(e@)),
        (VsCodeExport::Scanning, Reply::Folders(Ok(folders))) => if names_some_extension(folders@) {
            &&& a.notes == Seq::<(Level, Seq<char>)>::empty()
            &&& a.effect is SaveExtensions
            &&& a.effect->SaveExtensions_0 == extensions_file(root)
            &&& strictly_sorted(a.effect->SaveExtensions_1)
            &&& forall|x: Seq<char>| a.effect->SaveExtensions_1.contains(x) <==> found_id(folders@, x)
            &&& next == (VsCodeExport::Saving { count: a.effect->SaveExtensions_1.len() as usize })
        } else {
            next == VsCodeExport::Over && a == with_notes(seq![info("No VS Code extensions found to export."@)], done())
        },
        (VsCodeExport::Saving { .. }, Reply::Done(Err(e))) => next == VsCodeExport::Over && a == quiet(fail(e@)),
        (VsCodeExport::Saving { count }, Reply::Done(Ok(()))) => next == VsCodeExport::Over && a == with_notes(
            seq![success("Exported "@ + decimal(count as nat) + " VS Code extensions to: vscode-extensions.json"@)],
            done(),
        ),
        _ => false,
    }
}

/// The settings file at `i`.
fn settings_file_at(i: usize) -> (r: &'static str)
    ensures
        r@ == settings_file(i as int),
{
    if i == 0 {
        "settings.json"
    } else {
        "keybindings.json"
    }
}

fn vscode_dotfiles_of(root: &str) -> (r: String)
    ensures
        r@ == vscode_dotfiles(root@),
{
    let d = join(root, "dotfiles");
    join(d.as_str(), "vscode")
}

fn extensions_file_of(root: &str) -> (r: String)
    ensures
        r@ == extensions_file(root@),
{
    let d = join(root, "config");
    join(d.as_str(), "vscode-extensions.json")
}

/// Start gathering the extension list.
fn start_listing() -> (r: (VsCodeExport, Action))
    ensures
        vscode_listing(seq![], r.0, r.1@),
{
    let note = owned("Exporting VS Code extensions list...");
    match vscode_extensions_dir() {
        Err(e) => {
            let a = Action::noted(Level::Info, note, Effect::Finish(Err(e)));
            assert(seq![listing_note()] =~= Seq::<(Level, Seq<char>)>::empty().push(listing_note()));
            (VsCodeExport::Over, a)
        },
        Ok(dir) => {
            let a = Action::noted(Level::Info, note, Effect::PathExists(dir.clone()));
            assert(seq![listing_note()] =~= Seq::<(Level, Seq<char>)>::empty().push(listing_note()));
            (VsCodeExport::CheckingExtensions { dir }, a)
        },
    }
}

/// After settings file `index` of an export, with an optional message first.
fn export_after_setting(root: &str, user: String, index: usize, note: Option<(Level, String)>) -> (r: (VsCodeExport, Action))
    requires
        index < 2,
    ensures
        vscode_export_after(
            root@,
            user@,
            index as int,
            match note {
                Some(n) => seq![(n.0, n.1@)],
                None => seq![],
            },
            r.0,
            r.1@,
        ),
{
    let ghost user_view = user@;
    let (next, a) = if index + 1 < 2 {
        let path = join(user.as_str(), settings_file_at(index + 1));
        (VsCodeExport::CheckingSetting { user, index: index + 1 }, Action::just(Effect::PathExists(path)))
    } else {
        start_listing()
    };
    match note {
        Some((level, text)) => {
            let b = a.after(level, text);
            proof {
                if !(index + 1 < 2) {
                    assert(seq![(level, text@)] + seq![listing_note()] =~= seq![(level, text@)].push(listing_note()));
                } else {
                    assert(seq![(level, text@)] + Seq::<(Level, Seq<char>)>::empty() =~= seq![(level, text@)]);
                }
            }
            (next, b)
        },
        None => (next, a),
    }
}

impl VsCode {
    /// The next move of a VS Code export.
    pub fn export_step(&self, root: &str, stage: VsCodeExport, reply: Reply) -> (r: (VsCodeExport, Action))
        requires
            answers(stage.awaiting(), reply),
        ensures
            vscode_export_moves(root@, stage, reply, r.0, r.1@),
    {
        match (stage, reply) {
            (VsCodeExport::Start, _) => (
                VsCodeExport::CreatingDotfilesDir,
                Action::just(Effect::EnsureDir(vscode_dotfiles_of(root))),
            ),
            (VsCodeExport::CreatingDotfilesDir, Reply::Done(Err(e))) => (VsCodeExport::Over, Action::finish(Err(e))),
            (VsCodeExport::CreatingDotfilesDir, Reply::Done(Ok(()))) => (
                VsCodeExport::CreatingConfigDir,
                Action::just(Effect::EnsureDir(join(root, "config"))),
            ),
            (VsCodeExport::CreatingConfigDir, Reply::Done(Err(e))) => (VsCodeExport::Over, Action::finish(Err(e))),
            (VsCodeExport::CreatingConfigDir, Reply::Done(Ok(()))) => match vscode_user_dir() {
                Err(e) => (VsCodeExport::Over, Action::finish(Err(e))),
                Ok(user) => {
                    let a = Action::just(Effect::PathExists(user.clone()));
                    (VsCodeExport::CheckingUser { user }, a)
                },
            },
            (VsCodeExport::CheckingUser { user }, Reply::Flag(true)) => {
                let path = join(user.as_str(), "settings.json");
                (VsCodeExport::CheckingSetting { user, index: 0 }, Action::just(Effect::PathExists(path)))
            },
            (VsCodeExport::CheckingUser { user }, Reply::Flag(false)) => {
                let (next, a) = start_listing();
                let text = concat("VS Code user folder not found at ", user.as_str());
                let ghost t = text@;
                let b = a.after(Level::Warning, text);
                assert(seq![warning(t)] + seq![listing_note()] =~= seq![warning(t)].push(listing_note()));
                (next, b)
            },
            (VsCodeExport::CheckingSetting { user, index }, Reply::Flag(true)) => {
                let from = join(user.as_str(), settings_file_at(index));
                let dot = vscode_dotfiles_of(root);
                let to = join(dot.as_str(), settings_file_at(index));
                (VsCodeExport::CopyingSetting { user, index }, Action::just(Effect::CopyFile { from, to }))
            },
            (VsCodeExport::CheckingSetting { user, index }, Reply::Flag(false)) => export_after_setting(root, user, index, None),
            (VsCodeExport::CopyingSetting { .. }, Reply::Done(Err(e))) => (VsCodeExport::Over, Action::finish(Err(e))),
            (VsCodeExport::CopyingSetting { user, index }, Reply::Done(Ok(()))) => {
                let text = concat("Exported: ", settings_file_at(index));
                export_after_setting(root, user, index, Some((Level::Success, text)))
            },
            (VsCodeExport::CheckingExtensions { .. }, Reply::Flag(false)) => (
                VsCodeExport::Over,
                Action::noted(Level::Info, owned("No VS Code extensions found to export."), Effect::Finish(Ok(()))),
            ),
            (VsCodeExport::CheckingExtensions { dir }, Reply::Flag(true)) => (
                VsCodeExport::Scanning,
                Action::just(Effect::ScanExtensions(dir)),
            ),
            (VsCodeExport::Scanning, Reply::Folders(Err(e))) => (VsCodeExport::Over, Action::finish(Err(e))),
            (VsCodeExport::Scanning, Reply::Folders(Ok(folders))) => {
                let extensions = installed_extensions(&folders);
                if extensions.len() == 0 {
                    proof {
                        if names_some_extension(folders@) {
                            let i = choose|i: int| 0 <= i < folders@.len() && extension_id(folders@[i]) is Some;
                            assert(found_id(folders@, extension_id(folders@[i])->0));
                            assert(texts(extensions@).contains(extension_id(folders@[i])->0));
                        }
                    }
                    (
                        VsCodeExport::Over,
                        Action::noted(Level::Info, owned("No VS Code extensions found to export."), Effect::Finish(Ok(()))),
                    )
                } else {
                    proof {
                        let x = texts(extensions@)[0];
                        assert(texts(extensions@)[0] == x);
                        assert(texts(extensions@).contains(x));
                        assert(found_id(folders@, x));
                        let i = choose|i: int| 0 <= i < folders@.len() && extension_id(folders@[i]) == Some(x);
                        assert(extension_id(folders@[i]) is Some);
                    }
                    let count = extensions.len();
                    let config = ExtensionsConfig { extensions };
                    assert(arg_texts(config.extensions) =~= texts(config.extensions@));
                    (
                        VsCodeExport::Saving { count },
                        Action::just(Effect::SaveExtensions { path: extensions_file_of(root), config }),
                    )
                }
            },
            (VsCodeExport::Saving { .. }, Reply::Done(Err(e))) => (VsCodeExport::Over, Action::finish(Err(e))),
            (VsCodeExport::Saving { count }, Reply::Done(Ok(()))) => {
                let n = usize_text(count);
                let text = concat3("Exported ", n.as_str(), " VS Code extensions to: vscode-extensions.json");
                (VsCodeExport::Over, Action::noted(Level::Success, text, Effect::Finish(Ok(()))))
            },
            _ => {
                assert(false);
                (VsCodeExport::Over, Action::finish(Ok(())))
            },
        }
    }
}

/// Progress of a VS Code import.
pub enum VsCodeImport {
    Start,
    CreatingUserDir { user: String },
    CheckingDotfiles { user: String },
    CheckingSetting { user: String, index: usize },
    CopyingSetting { user: String, index: usize },
    CheckingList,
    Loading,
    CheckingCode { config: ExtensionsConfig },
    Installing { config: ExtensionsConfig, index: usize },
    Over,
}

impl VsCodeImport {
    /// How far the import is from its end: lower at every move, in
    /// lexicographic order (an install lowers the extensions left).
    pub open spec fn rank(self) -> (nat, nat) {
        match self {
            VsCodeImport::Start => (11, 0),
            VsCodeImport::CreatingUserDir { .. } => (10, 0),
            VsCodeImport::CheckingDotfiles { .. } => (9, 0),
            VsCodeImport::CheckingSetting { index, .. } => ((8 - 2 * index) as nat, 0),
            VsCodeImport::CopyingSetting { index, .. } => ((7 - 2 * index) as nat, 0),
            VsCodeImport::CheckingList => (4, 0),
            VsCodeImport::Loading => (3, 0),
            VsCodeImport::CheckingCode { .. } => (2, 0),
            VsCodeImport::Installing { config, index } => (1, (config.extensions@.len() - index) as nat),
            VsCodeImport::Over => (0, 0),
        }
    }

    /// The reply this stage waits for.
    pub open spec fn awaiting(self) -> Awaiting {
        match self {
            VsCodeImport::Start => Awaiting::Begin,
            VsCodeImport::CreatingUserDir { .. } => Awaiting::Done,
            VsCodeImport::CheckingDotfiles { .. } => Awaiting::Flag,
            VsCodeImport::CheckingSetting { index, .. } => if index < 2 { Awaiting::Flag } else { Awaiting::Nothing },
            VsCodeImport::CopyingSetting { index, .. } => if index < 2 { Awaiting::Done } else { Awaiting::Nothing },
            VsCodeImport::CheckingList => Awaiting::Flag,
            VsCodeImport::Loading => Awaiting::Extensions,
            VsCodeImport::CheckingCode { .. } => Awaiting::Flag,
            VsCodeImport::Installing { config, index } => if index < config.extensions@.len() {
                Awaiting::Ran
            } else {
                Awaiting::Nothing
            },
            VsCodeImport::Over => Awaiting::Nothing,
        }
    }

    /// The reply this stage waits for.
    pub fn awaits(&self) -> (w: Awaiting)
        ensures
            w == self.awaiting(),
    {
        match self {
            VsCodeImport::Start => Awaiting::Begin,
            VsCodeImport::CreatingUserDir { .. } => Awaiting::Done,
            VsCodeImport::CheckingDotfiles { .. } => Awaiting::Flag,
            VsCodeImport::CheckingSetting { index, .. } => if *index < 2 { Awaiting::Flag } else { Awaiting::Nothing },
            VsCodeImport::CopyingSetting { index, .. } => if *index < 2 { Awaiting::Done } else { Awaiting::Nothing },
            VsCodeImport::CheckingList => Awaiting::Flag,
            VsCodeImport::Loading => Awaiting::Extensions,
            VsCodeImport::CheckingCode { .. } => Awaiting::Flag,
            VsCodeImport::Installing { config, index } => if *index < config.extensions.len() {
                Awaiting::Ran
            } else {
                Awaiting::Nothing
            },
            VsCodeImport::Over => Awaiting::Nothing,
        }
    }
}

/// Install extension `i` of the list, or end, after the messages `notes`.
pub open spec fn vscode_install_from(
    config: ExtensionsConfig,
    i: int,
    notes: Seq<(Level, Seq<char>)>,
    next: VsCodeImport,
    a: ActionView,
) -> bool {
    if i < config.extensions@.len() {
        next == (VsCodeImport::Installing { config, index: i as usize }) && a == with_notes(
            notes,
            install_extension(config.extensions@[i]@),
        )
    } else {
        next == VsCodeImport::Over && a == with_notes(notes, done())
    }
}

/// After settings file `i` of an import: the next file, or the extension list.
pub open spec fn vscode_import_after(
    root: Seq<char>,
    user: Seq<char>,
    i: int,
    notes: Seq<(Level, Seq<char>)>,
    next: VsCodeImport,
    a: ActionView,
) -> bool {
    if i + 1 < 2 {
        next is CheckingSetting && next->CheckingSetting_user@ == user && next->CheckingSetting_index == i + 1
            && a == with_notes(notes, EffectView::PathExists(joined(vscode_dotfiles(root), settings_file(i + 1))))
    } else {
        next == VsCodeImport::CheckingList && a == with_notes(notes, EffectView::PathExists(extensions_file(root)))
    }
}

/// One move of a VS Code import: copy the settings files from
/// `<root>/dotfiles/vscode` into the user folder, then install each extension
/// of `<root>/config/vscode-extensions.json` with `code` (a failed
/// installation is reported and the others go on).
pub open spec fn vscode_import_moves(root: Seq<char>, stage: VsCodeImport, reply: Reply, next: VsCodeImport, a: ActionView) -> bool {
    match (stage, reply) {
        (VsCodeImport::Start, _) => {
            ||| next == VsCodeImport::Over && a == quiet(fail(ErrorView::Path("Could not determine APPDATA directory"@)))
            ||| {
                &&& next is CreatingUserDir
                &&& exists|appdata: Seq<char>| next->CreatingUserDir_user@ == joined(joined(appdata, "Code"@), "User"@)
                &&& a == quiet(EffectView::EnsureDir(next->CreatingUserDir_user@))
            }
        },
        (VsCodeImport::CreatingUserDir { .. }, Reply::Done(Err(e))) => next == VsCodeImport::Over && a == quiet(fail(e@)),
        (VsCodeImport::CreatingUserDir { user }, Reply::Done(Ok(()))) => next == (VsCodeImport::CheckingDotfiles { user })
            && a == quiet(EffectView::PathExists(vscode_dotfiles(root))),
        (VsCodeImport::CheckingDotfiles { user }, Reply::Flag(true)) => next == (VsCodeImport::CheckingSetting {
            user,
            index: 0,
        }) && a == with_notes(
            seq![info("Copying VS Code settings to "@ + user@)],
            EffectView::PathExists(joined(vscode_dotfiles(root), settings_file(0))),
        ),
        (VsCodeImport::CheckingDotfiles { .. }, Reply::Flag(false)) => next == VsCodeImport::CheckingList && a
            == with_notes(
            seq![warning("VS Code dotfiles not found at "@ + vscode_dotfiles(root))],
            EffectView::PathExists(extensions_file(root)),
        ),
        (VsCodeImport::CheckingSetting { user, index }, Reply::Flag(true)) => next == (VsCodeImport::CopyingSetting {
            user,
            index,
        }) && a == quiet(
            EffectView::CopyFile(
                joined(vscode_dotfiles(root), settings_file(index as int)),
                joined(user@, settings_file(index as int)),
            ),
        ),
        (VsCodeImport::CheckingSetting { user, index }, Reply::Flag(false)) => vscode_import_after(
            root,
            user@,
            index as int,
            seq![],
            next,
            a,
        ),
        (VsCodeImport::CopyingSetting { .. }, Reply::Done(Err(e))) => next == VsCodeImport::Over && a == quiet(fail(e@)),
        (VsCodeImport::CopyingSetting { user, index }, Reply::Done(Ok(()))) => vscode_import_after(
            root,
            user@,
            index as int,
            seq![success("Imported: "@ + settings_file(index as int))],
            next,
            a,
        ),
        (VsCodeImport::CheckingList, Reply::Flag(false)) => next == VsCodeImport::Over && a == with_notes(
            seq![info("No vscode-extensions.json found. Skipping extensions."@)],
            done(),
        ),
        (VsCodeImport::CheckingList, Reply::Flag(true)) => next == VsCodeImport::Loading && a == quiet(
            EffectView::LoadExtensions(extensions_file(root)),
        ),
        (VsCodeImport::Loading, Reply::Extensions(Err(e))) => next == VsCodeImport::Over && a == quiet(fail(e@)),
        (VsCodeImport::Loading, Reply::Extensions(Ok(config))) => next == (VsCodeImport::CheckingCode { config }) && a
            == quiet(EffectView::CommandExists("code"@)),
        (VsCodeImport::CheckingCode { .. }, Reply::Flag(false)) => next == VsCodeImport::Over && a == with_notes(
            seq![warning("VS Code CLI ('code') not found. Install VS Code and add to PATH."@)],
            done(),
        ),
        (VsCodeImport::CheckingCode { config }, Reply::Flag(true)) => vscode_install_from(
            config,
            0,
            seq![info("Installing VS Code extensions..."@)],
            next,
            a,
        ),
        (VsCodeImport::Installing { config, index }, Reply::Ran(Ok(_))) => vscode_install_from(
            config,
            index + 1,
            seq![success("Installed: "@ + config.extensions@[index as int]@)],
            next,
            a,
        ),
        (VsCodeImport::Installing { config, index }, Reply::Ran(Err(e))) => vscode_install_from(
            config,
            index + 1,
            seq![warning("Failed to install "@ + config.extensions@[index as int]@ + ": "@ + error_text(e@))],
            next,
            a,
        ),
        _ => false,
    }
}

/// `code --install-extension <ext> --force`.
fn install_command(ext: &str) -> (c: CommandSpec)
    ensures
        EffectView::Run(c.program@, arg_texts(c.args)) == install_extension(ext@),
{
    let args = vec!["--install-extension", ext, "--force"];
    assert(str_texts(args@) =~= seq!["--install-extension"@, ext@, "--force"@]);
    command_of("code", args)
}

/// Install extension `index` of the list, or end, after one message.
fn install_from(config: ExtensionsConfig, index: usize, level: Level, text: String) -> (r: (VsCodeImport, Action))
    ensures
        vscode_install_from(config, index as int, seq![(level, text@)], r.0, r.1@),
{
    if index < config.extensions.len() {
        let c = install_command(config.extensions[index].as_str());
        (VsCodeImport::Installing { config, index }, Action::noted(level, text, Effect::Run(c)))
    } else {
        (VsCodeImport::Over, Action::noted(level, text, Effect::Finish(Ok(()))))
    }
}

/// After settings file `index` of an import.
fn import_after_setting(root: &str, user: String, index: usize, notes: Vec<(Level, String)>) -> (r: (VsCodeImport, Action))
    requires
        index < 2,
        notes@.len() <= 1,
    ensures
        vscode_import_after(root@, user@, index as int, notes@.map_values(|n: (Level, String)| (n.0, n.1@)), r.0, r.1@),
{
    let ghost shown = notes@.map_values(|n: (Level, String)| (n.0, n.1@));
    let (next, effect) = if index + 1 < 2 {
        let dot = vscode_dotfiles_of(root);
        let path = join(dot.as_str(), settings_file_at(index + 1));
        (VsCodeImport::CheckingSetting { user, index: index + 1 }, Effect::PathExists(path))
    } else {
        (VsCodeImport::CheckingList, Effect::PathExists(extensions_file_of(root)))
    };
    let mut out: Vec<crate::components::effects::Note> = Vec::new();
    let mut notes = notes;
    if notes.len() == 1 {
        let (level, text) = notes.pop().unwrap();
        out.push(crate::components::effects::Note { level, text });
    }
    let a = Action { notes: out, effect };
    assert(a@.notes =~= shown);
    (next, a)
}

impl VsCode {
    /// The next move of a VS Code import.
    pub fn import_step(&self, root: &str, stage: VsCodeImport, reply: Reply) -> (r: (VsCodeImport, Action))
        requires
            answers(stage.awaiting(), reply),
        ensures
            vscode_import_moves(root@, stage, reply, r.0, r.1@),
    {
        match (stage, reply) {
            (VsCodeImport::Start, _) => match vscode_user_dir() {
                Err(e) => (VsCodeImport::Over, Action::finish(Err(e))),
                Ok(user) => {
                    let a = Action::just(Effect::EnsureDir(user.clone()));
                    (VsCodeImport::CreatingUserDir { user }, a)
                },
            },
            (VsCodeImport::CreatingUserDir { .. }, Reply::Done(Err(e))) => (VsCodeImport::Over, Action::finish(Err(e))),
            (VsCodeImport::CreatingUserDir { user }, Reply::Done(Ok(()))) => (
                VsCodeImport::CheckingDotfiles { user },
                Action::just(Effect::PathExists(vscode_dotfiles_of(root))),
            ),
            (VsCodeImport::CheckingDotfiles { user }, Reply::Flag(true)) => {
                let text = concat("Copying VS Code settings to ", user.as_str());
                let dot = vscode_dotfiles_of(root);
                let path = join(dot.as_str(), "settings.json");
                (VsCodeImport::CheckingSetting { user, index: 0 }, Action::noted(Level::Info, text, Effect::PathExists(path)))
            },
            (VsCodeImport::CheckingDotfiles { .. }, Reply::Flag(false)) => {
                let dot = vscode_dotfiles_of(root);
                let text = concat("VS Code dotfiles not found at ", dot.as_str());
                (
                    VsCodeImport::CheckingList,
                    Action::noted(Level::Warning, text, Effect::PathExists(extensions_file_of(root))),
                )
            },
            (VsCodeImport::CheckingSetting { user, index }, Reply::Flag(true)) => {
                let dot = vscode_dotfiles_of(root);
                let from = join(dot.as_str(), settings_file_at(index));
                let to = join(user.as_str(), settings_file_at(index));
                (VsCodeImport::CopyingSetting { user, index }, Action::just(Effect::CopyFile { from, to }))
            },
            (VsCodeImport::CheckingSetting { user, index }, Reply::Flag(false)) => {
                let r = import_after_setting(root, user, index, Vec::new());
                assert(Seq::<(Level, String)>::empty().map_values(|n: (Level, String)| (n.0, n.1@)) =~= seq![]);
                r
            },
            (VsCodeImport::CopyingSetting { .. }, Reply::Done(Err(e))) => (VsCodeImport::Over, Action::finish(Err(e))),
            (VsCodeImport::CopyingSetting { user, index }, Reply::Done(Ok(()))) => {
                let text = concat("Imported: ", settings_file_at(index));
                let ghost t = text@;
                let notes = vec![(Level::Success, text)];
                assert(notes@.map_values(|n: (Level, String)| (n.0, n.1@)) =~= seq![success(t)]);
                import_after_setting(root, user, index, notes)
            },
            (VsCodeImport::CheckingList, Reply::Flag(false)) => (
                VsCodeImport::Over,
                Action::noted(
                    Level::Info,
                    owned("No vscode-extensions.json found. Skipping extensions."),
                    Effect::Finish(Ok(())),
                ),
            ),
            (VsCodeImport::CheckingList, Reply::Flag(true)) => (
                VsCodeImport::Loading,
                Action::just(Effect::LoadExtensions(extensions_file_of(root))),
            ),
            (VsCodeImport::Loading, Reply::Extensions(Err(e))) => (VsCodeImport::Over, Action::finish(Err(e))),
            (VsCodeImport::Loading, Reply::Extensions(Ok(config))) => (
                VsCodeImport::CheckingCode { config },
                Action::just(Effect::CommandExists(owned("code"))),
            ),
            (VsCodeImport::CheckingCode { .. }, Reply::Flag(false)) => (
                VsCodeImport::Over,
                Action::noted(
                    Level::Warning,
                    owned("VS Code CLI ('code') not found. Install VS Code and add to PATH."),
                    Effect::Finish(Ok(())),
                ),
            ),
            (VsCodeImport::CheckingCode { config }, Reply::Flag(true)) => install_from(
                config,
                0,
                Level::Info,
                owned("Installing VS Code extensions..."),
            ),
            (VsCodeImport::Installing { config, index }, Reply::Ran(Ok(_))) => {
                let _n = config.extensions.len();
                let text = concat("Installed: ", config.extensions[index].as_str());
                install_from(config, index + 1, Level::Success, text)
            },
            (VsCodeImport::Installing { config, index }, Reply::Ran(Err(e))) => {
                let _n = config.extensions.len();
                let mut text = concat("Failed to install ", config.extensions[index].as_str());
                text.append(": ");
                let m = e.message();
                text.append(m.as_str());
                install_from(config, index + 1, Level::Warning, text)
            },
            _ => {
                assert(false);
                (VsCodeImport::Over, Action::finish(Ok(())))
            },
        }
    }
}

/// Progress of a VS Code extension upgrade.
pub enum VsCodeUpgrade {
    Start,
    CheckingCode,
    CheckingList,
    Loading,
    Updating { config: ExtensionsConfig, index: usize },
    Over,
}

impl VsCodeUpgrade {
    /// How far the upgrade is from its end: lower at every move, in
    /// lexicographic order (an update lowers the extensions left).
    pub open spec fn rank(self) -> (nat, nat) {
        match self {
            VsCodeUpgrade::Start => (5, 0),
            VsCodeUpgrade::CheckingCode => (4, 0),
            VsCodeUpgrade::CheckingList => (3, 0),
            VsCodeUpgrade::Loading => (2, 0),
            VsCodeUpgrade::Updating { config, index } => (1, (config.extensions@.len() - index) as nat),
            VsCodeUpgrade::Over => (0, 0),
        }
    }

    /// The reply this stage waits for.
    pub open spec fn awaiting(self) -> Awaiting {
        match self {
            VsCodeUpgrade::Start => Awaiting::Begin,
            VsCodeUpgrade::CheckingCode => Awaiting::Flag,
            VsCodeUpgrade::CheckingList => Awaiting::Flag,
            VsCodeUpgrade::Loading => Awaiting::Extensions,
            VsCodeUpgrade::Updating { config, index } => if index < config.extensions@.len() {
                Awaiting::Ran
            } else {
                Awaiting::Nothing
            },
            VsCodeUpgrade::Over => Awaiting::Nothing,
        }
    }

    /// The reply this stage waits for.
    pub fn awaits(&self) -> (w: Awaiting)
        ensures
            w == self.awaiting(),
    {
        match self {
            VsCodeUpgrade::Start => Awaiting::Begin,
            VsCodeUpgrade::CheckingCode => Awaiting::Flag,
            VsCodeUpgrade::CheckingList => Awaiting::Flag,
            VsCodeUpgrade::Loading => Awaiting::Extensions,
            VsCodeUpgrade::Updating { config, index } => if *index < config.extensions.len() {
                Awaiting::Ran
            } else {
                Awaiting::Nothing
            },
            VsCodeUpgrade::Over => Awaiting::Nothing,
        }
    }
}

/// Update extension `i` of the list, or end, after the messages `notes`.
pub open spec fn vscode_update_from(
    config: ExtensionsConfig,
    i: int,
    notes: Seq<(Level, Seq<char>)>,
    next: VsCodeUpgrade,
    a: ActionView,
) -> bool {
    if i < config.extensions@.len() {
        next == (VsCodeUpgrade::Updating { config, index: i as usize }) && a == with_notes(
            notes,
            install_extension(config.extensions@[i]@),
        )
    } else {
        next == VsCodeUpgrade::Over && a == with_notes(notes.push(success("VS Code extensions updated."@)), done())
    }
}

/// One move of a VS Code extension upgrade: reinstall each listed extension
/// with `--force` (failures ignored).
pub open spec fn vscode_upgrade_moves(root: Seq<char>, stage: VsCodeUpgrade, reply: Reply, next: VsCodeUpgrade, a: ActionView) -> bool {
    match (stage, reply) {
        (VsCodeUpgrade::Start, _) => next == VsCodeUpgrade::CheckingCode && a == quiet(EffectView::CommandExists("code"@)),
        (VsCodeUpgrade::CheckingCode, Reply::Flag(false)) => next == VsCodeUpgrade::Over && a == with_notes(
            seq![warning("VS Code CLI ('code') not found. Skipping."@)],
            done(),
        ),
        (VsCodeUpgrade::CheckingCode, Reply::Flag(true)) => next == VsCodeUpgrade::CheckingList && a == quiet(
            EffectView::PathExists(extensions_file(root)),
        ),
        (VsCodeUpgrade::CheckingList, Reply::Flag(false)) => next == VsCodeUpgrade::Over && a == with_notes(
            seq![info("No vscode-extensions.json found. Skipping."@)],
            done(),
        ),
        (VsCodeUpgrade::CheckingList, Reply::Flag(true)) => next == VsCodeUpgrade::Loading && a == quiet(
            EffectView::LoadExtensions(extensions_file(root)),
        ),
        (VsCodeUpgrade::Loading, Reply::Extensions(Err(e))) => next == VsCodeUpgrade::Over && a == quiet(fail(e@)),
        (VsCodeUpgrade::Loading, Reply::Extensions(Ok(config))) => vscode_update_from(
            config,
            0,
            seq![info("Updating VS Code extensions..."@)],
            next,
            a,
        ),
        (VsCodeUpgrade::Updating { config, index }, Reply::Ran(_)) => vscode_update_from(config, index + 1, seq![], next, a),
        _ => false,
    }
}

/// Update extension `index` of the list, or end.
fn update_from(config: ExtensionsConfig, index: usize, note: Option<String>) -> (r: (VsCodeUpgrade, Action))
    ensures
        vscode_update_from(
            config,
            index as int,
            match note {
                Some(t) => seq![info(t@)],
                None => seq![],
            },
            r.0,
            r.1@,
        ),
{
    let ghost shown = if note is Some {
        seq![info(note->0@)]
    } else {
        Seq::<(Level, Seq<char>)>::empty()
    };
    let mut notes: Vec<crate::components::effects::Note> = Vec::new();
    match note {
        Some(t) => notes.push(crate::components::effects::Note { level: Level::Info, text: t }),
        None => {},
    }
    if index < config.extensions.len() {
        let c = install_command(config.extensions[index].as_str());
        let a = Action { notes, effect: Effect::Run(c) };
        assert(a@.notes =~= shown);
        (VsCodeUpgrade::Updating { config, index }, a)
    } else {
        notes.push(crate::components::effects::Note { level: Level::Success, text: owned("VS Code extensions updated.") });
        let a = Action { notes, effect: Effect::Finish(Ok(())) };
        assert(a@.notes =~= shown.push(success("VS Code extensions updated."@)));
        (VsCodeUpgrade::Over, a)
    }
}

impl VsCode {
    /// The next move of a VS Code extension upgrade.
    pub fn upgrade_step(&self, root: &str, stage: VsCodeUpgrade, reply: Reply) -> (r: (VsCodeUpgrade, Action))
        requires
            answers(stage.awaiting(), reply),
        ensures
            vscode_upgrade_moves(root@, stage, reply, r.0, r.1@),
    {
        match (stage, reply) {
            (VsCodeUpgrade::Start, _) => (VsCodeUpgrade::CheckingCode, Action::just(Effect::CommandExists(owned("code")))),
            (VsCodeUpgrade::CheckingCode, Reply::Flag(false)) => (
                VsCodeUpgrade::Over,
                Action::noted(Level::Warning, owned("VS Code CLI ('code') not found. Skipping."), Effect::Finish(Ok(()))),
            ),
            (VsCodeUpgrade::CheckingCode, Reply::Flag(true)) => (
                VsCodeUpgrade::CheckingList,
                Action::just(Effect::PathExists(extensions_file_of(root))),
            ),
            (VsCodeUpgrade::CheckingList, Reply::Flag(false)) => (
                VsCodeUpgrade::Over,
                Action::noted(Level::Info, owned("No vscode-extensions.json found. Skipping."), Effect::Finish(Ok(()))),
            ),
            (VsCodeUpgrade::CheckingList, Reply::Flag(true)) => (
                VsCodeUpgrade::Loading,
                Action::just(Effect::LoadExtensions(extensions_file_of(root))),
            ),
            (VsCodeUpgrade::Loading, Reply::Extensions(Err(e))) => (VsCodeUpgrade::Over, Action::finish(Err(e))),
            (VsCodeUpgrade::Loading, Reply::Extensions(Ok(config))) => update_from(
                config,
                0,
                Some(owned("Updating VS Code extensions...")),
            ),
            (VsCodeUpgrade::Updating { config, index }, Reply::Ran(_)) => {
                let _n = config.extensions.len();
                update_from(config, index + 1, None)
            },
            _ => {
                assert(false);
                (VsCodeUpgrade::Over, Action::finish(Ok(())))
            },
        }
    }
}

/// The VS Code CLI is known to be installed at this stage of an upgrade.
pub open spec fn upgrade_found(s: VsCodeUpgrade) -> bool {
    s is CheckingList || s is Loading || s is Updating
}

/// An import runs `code` only once it has found it installed: each move that
/// runs it answers the check with yes or starts from an install, and the
/// installs are reached only from one another or from that answer.
pub proof fn lemma_import_checks_code(root: Seq<char>, stage: VsCodeImport, reply: Reply, next: VsCodeImport, a: ActionView)
    requires
        vscode_import_moves(root, stage, reply, next, a),
    ensures
        runs_program(a.effect, "code"@) ==> stage is Installing || (stage is CheckingCode && reply == Reply::Flag(true)),
        next is Installing ==> stage is Installing || (stage is CheckingCode && reply == Reply::Flag(true)),
{
}

/// An upgrade runs `code` only once it has found it installed: each move that
/// runs it starts from a stage past the check, and such a stage is reached
/// only from another one or from the check answered yes.
pub proof fn lemma_upgrade_checks_code(root: Seq<char>, stage: VsCodeUpgrade, reply: Reply, next: VsCodeUpgrade, a: ActionView)
    requires
        vscode_upgrade_moves(root, stage, reply, next, a),
    ensures
        runs_program(a.effect, "code"@) ==> upgrade_found(stage),
        upgrade_found(next) ==> upgrade_found(stage) || (stage is CheckingCode && reply == Reply::Flag(true)),
{
}

/// Each move of an import lowers its rank (see `Job::rank`).
pub proof fn lemma_import_lowers_rank(root: Seq<char>, stage: VsCodeImport, reply: Reply, next: VsCodeImport, a: ActionView)
    requires
        answers(stage.awaiting(), reply),
        vscode_import_moves(root, stage, reply, next, a),
    ensures
        next.rank().0 < stage.rank().0 || (next.rank().0 == stage.rank().0 && next.rank().1 < stage.rank().1),
{
    if let VsCodeImport::Installing { config, .. } = stage {
        assert(config.extensions@.len() == config.extensions.len());
    }
}

/// Each move of an upgrade lowers its rank (see `Job::rank`).
pub proof fn lemma_upgrade_lowers_rank(root: Seq<char>, stage: VsCodeUpgrade, reply: Reply, next: VsCodeUpgrade, a: ActionView)
    requires
        answers(stage.awaiting(), reply),
        vscode_upgrade_moves(root, stage, reply, next, a),
    ensures
        next.rank().0 < stage.rank().0 || (next.rank().0 == stage.rank().0 && next.rank().1 < stage.rank().1),
{
    if let VsCodeUpgrade::Updating { config, .. } = stage {
        assert(config.extensions@.len() == config.extensions.len());
    }
}

/// A VS Code export creates and overwrites files only below the config root.
pub proof fn lemma_export_inside_root(root: Seq<char>, stage: VsCodeExport, reply: Reply, next: VsCodeExport, a: ActionView)
    requires
        vscode_export_moves(root, stage, reply, next, a),
    ensures
        written(a.effect) is Some ==> under(root, written(a.effect)->0),
{
    reveal_strlit("dotfiles");
    reveal_strlit("vscode");
    reveal_strlit("config");
    reveal_strlit("vscode-extensions.json");
    reveal_strlit("settings.json");
    reveal_strlit("keybindings.json");
    lemma_joined2_under(root, "dotfiles"@, "vscode"@);
    lemma_joined2_under(root, "config"@, "vscode-extensions.json"@);
    assert forall|i: int| under(root, #[trigger] joined(vscode_dotfiles(root), settings_file(i))) by {
        lemma_joined_under(vscode_dotfiles(root), settings_file(i));
        lemma_under_transitive(root, vscode_dotfiles(root), joined(vscode_dotfiles(root), settings_file(i)));
    }
}

/// A VS Code import applies the saved settings: every copy it makes reads
/// `settings.json` or `keybindings.json` from `<root>\dotfiles\vscode` and
/// writes the file of the same name into the VS Code user folder
/// (`<APPDATA>\Code\User`), the folder the import made sure exists first.
pub proof fn lemma_import_applies_settings(root: Seq<char>, stage: VsCodeImport, reply: Reply, next: VsCodeImport, a: ActionView)
    requires
        answers(stage.awaiting(), reply),
        vscode_import_moves(root, stage, reply, next, a),
    ensures
        a.effect matches EffectView::CopyFile(from, to) ==> {
            &&& stage matches VsCodeImport::CheckingSetting { user, index }
            &&& reply == Reply::Flag(true)
            &&& (index == 0 || index == 1)
            &&& index == 0 ==> from == joined(joined(joined(root, "dotfiles"@), "vscode"@), "settings.json"@)
                && to == joined(user@, "settings.json"@)
            &&& index == 1 ==> from == joined(joined(joined(root, "dotfiles"@), "vscode"@), "keybindings.json"@)
                && to == joined(user@, "keybindings.json"@)
        },
        next matches VsCodeImport::CheckingSetting { user, .. } ==> {
            ||| stage matches VsCodeImport::CheckingDotfiles { user: u } && u@ == user@
            ||| stage matches VsCodeImport::CheckingSetting { user: u, .. } && u@ == user@
            ||| stage matches VsCodeImport::CopyingSetting { user: u, .. } && u@ == user@
        },
        next matches VsCodeImport::CopyingSetting { user, .. } ==> stage matches VsCodeImport::CheckingSetting { user: u, .. }
            && u@ == user@,
        next matches VsCodeImport::CheckingDotfiles { user } ==> stage matches VsCodeImport::CreatingUserDir { user: u }
            && u@ == user@,
        next matches VsCodeImport::CreatingUserDir { user } ==> {
            &&& a.effect == EffectView::EnsureDir(user@)
            &&& exists|appdata: Seq<char>| user@ == joined(joined(appdata, "Code"@), "User"@)
        },
{
}

/// A VS Code import on which `code` was found installs every extension of
/// the loaded list, first to last, each with
/// `code --install-extension <id> --force`, whatever the one before gave, and
/// ends only after the last.
pub proof fn lemma_import_installs_every_extension(root: Seq<char>, stage: VsCodeImport, reply: Reply, next: VsCodeImport, a: ActionView)
    requires
        answers(stage.awaiting(), reply),
        vscode_import_moves(root, stage, reply, next, a),
    ensures
        next matches VsCodeImport::Installing { config, index } ==> {
            &&& index < config.extensions@.len()
            &&& a.effect == EffectView::Run("code"@, seq!["--install-extension"@, config.extensions@[index as int]@, "--force"@])
            &&& index == 0 ==> stage == (VsCodeImport::CheckingCode { config }) && reply == Reply::Flag(true)
            &&& index > 0 ==> stage == (VsCodeImport::Installing { config, index: (index - 1) as usize })
        },
        stage matches VsCodeImport::Installing { config, index } ==> (next == VsCodeImport::Over ==> index + 1
            == config.extensions@.len()),
        stage matches VsCodeImport::CheckingCode { config } ==> ((reply == Reply::Flag(true) && next == VsCodeImport::Over)
            ==> config.extensions@.len() == 0),
{
    if let VsCodeImport::Installing { config, .. } = stage {
        assert(config.extensions@.len() == config.extensions.len());
    }
}

/// A VS Code upgrade reinstalls every extension of the loaded list, first to
/// last, each with `code --install-extension <id> --force`, and ends only after
/// the last.
pub proof fn lemma_upgrade_updates_every_extension(root: Seq<char>, stage: VsCodeUpgrade, reply: Reply, next: VsCodeUpgrade, a: ActionView)
    requires
        answers(stage.awaiting(), reply),
        vscode_upgrade_moves(root, stage, reply, next, a),
    ensures
        next matches VsCodeUpgrade::Updating { config, index } ==> {
            &&& index < config.extensions@.len()
            &&& a.effect == EffectView::Run("code"@, seq!["--install-extension"@, config.extensions@[index as int]@, "--force"@])
            &&& index == 0 ==> stage == VsCodeUpgrade::Loading && reply == Reply::Extensions(Ok(config))
            &&& index > 0 ==> stage == (VsCodeUpgrade::Updating { config, index: (index - 1) as usize })
        },
        stage matches VsCodeUpgrade::Updating { config, index } ==> (next == VsCodeUpgrade::Over ==> index + 1
            == config.extensions@.len()),
        (stage == VsCodeUpgrade::Loading && next == VsCodeUpgrade::Over && reply is Extensions && reply->Extensions_0 is Ok)
            ==> reply->Extensions_0->Ok_0.extensions@.len() == 0,
{
    if let VsCodeUpgrade::Updating { config, .. } = stage {
        assert(config.extensions@.len() == config.extensions.len());
    }
}

} // verus!
