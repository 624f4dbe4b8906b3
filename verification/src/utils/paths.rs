//! Path utilities: joining, standard locations, and WSL path conversion.
//!
//! Paths are strings in Windows form; `join` adds a relative component the way
//! `Path::join` does on Windows.

use crate::error::{BootstrapError, ErrorView};
use crate::text::{concat, concat3, owned, push_char, replace_char, replaced, string_of, chars_of};
use vstd::prelude::*;

verus! {

/// A path separator on Windows.
pub open spec fn is_separator(c: char) -> bool {
    c == '\\' || c == '/'
}

/// A bare drive prefix such as `C:`: an ASCII letter and a colon, nothing more.
pub open spec fn is_bare_drive(p: Seq<char>) -> bool {
    p.len() == 2 && is_ascii_letter(p[0]) && p[1] == ':'
}

/// `base` with the relative component `segment` added: no separator is put
/// after a separator or after a bare drive (`C:` and `x` give `C:x`).
pub open spec fn joined(base: Seq<char>, segment: Seq<char>) -> Seq<char> {
    if base.len() == 0 {
        segment
    } else if is_separator(base.last()) || is_bare_drive(base) {
        base + segment
    } else {
        base + seq!['\\'] + segment
    }
}

/// Adds the relative component `segment` to `base`.
pub fn join(base: &str, segment: &str) -> (r: String)
    ensures
        r@ == joined(base@, segment@),
{
    let n = base.unicode_len();
    if n == 0 {
        owned(segment)
    } else {
        let last = base.get_char(n - 1);
        let first = base.get_char(0);
        let bare_drive = n == 2 && last == ':' && (('A' <= first && first <= 'Z') || ('a' <= first && first <= 'z'));
        if last == '\\' || last == '/' || bare_drive {
            concat(base, segment)
        } else {
            proof {
                reveal_strlit("\\");
            }
            assert("\\"@ =~= seq!['\\']);
            concat3(base, "\\", segment)
        }
    }
}

/// `dirs::home_dir`, as a string.
/// Claimed: nothing (the answer comes from the operating system); the parts of
/// a path that are not valid Unicode become U+FFFD.
#[verifier::external_body]
fn located_home() -> Option<String> {
    dirs::home_dir().map(|p| p.to_string_lossy().into_owned())
}

/// `dirs::config_dir` (the roaming APPDATA folder), as a string.
/// Claimed: nothing; the parts of a path that are not valid Unicode become U+FFFD.
#[verifier::external_body]
fn located_config() -> Option<String> {
    dirs::config_dir().map(|p| p.to_string_lossy().into_owned())
}

/// `dirs::document_dir`, as a string.
/// Claimed: nothing; the parts of a path that are not valid Unicode become U+FFFD.
#[verifier::external_body]
fn located_documents() -> Option<String> {
    dirs::document_dir().map(|p| p.to_string_lossy().into_owned())
}

/// The located directory, or the path error with `message`.
pub open spec fn located_or(found: Option<String>, message: Seq<char>, r: Result<String, BootstrapError>) -> bool {
    match found {
        Some(p) => r matches Ok(q) && q@ == p@,
        None => r matches Err(e) && e@ == ErrorView::Path(message),
    }
}

/// The home directory, given where the system located it.
pub fn home_dir_from(found: Option<String>) -> (r: Result<String, BootstrapError>)
    ensures
        located_or(found, "Could not determine home directory"@, r),
{
    match found {
        Some(p) => Ok(p),
        None => Err(BootstrapError::Path(owned("Could not determine home directory"))),
    }
}

/// Get the user's home directory.
pub fn home_dir() -> (r: Result<String, BootstrapError>)
    ensures
        r is Err ==> (r matches Err(e) && e@ == ErrorView::Path("Could not determine home directory"@)),
{
    home_dir_from(located_home())
}

/// The APPDATA directory, given where the system located it.
pub fn appdata_dir_from(found: Option<String>) -> (r: Result<String, BootstrapError>)
    ensures
        located_or(found, "Could not determine APPDATA directory"@, r),
{
    match found {
        Some(p) => Ok(p),
        None => Err(BootstrapError::Path(owned("Could not determine APPDATA directory"))),
    }
}

/// Get the APPDATA directory (%APPDATA%).
pub fn appdata_dir() -> (r: Result<String, BootstrapError>)
    ensures
        r is Err ==> (r matches Err(e) && e@ == ErrorView::Path("Could not determine APPDATA directory"@)),
{
    appdata_dir_from(located_config())
}

/// The VS Code user settings directory under a located APPDATA directory.
pub fn vscode_user_dir_from(appdata: Option<String>) -> (r: Result<String, BootstrapError>)
    ensures
        match appdata {
            Some(p) => r matches Ok(q) && q@ == joined(joined(p@, "Code"@), "User"@),
            None => r matches Err(e) && e@ == ErrorView::Path("Could not determine APPDATA directory"@),
        },
{
    let base = appdata_dir_from(appdata)?;
    let code = join(base.as_str(), "Code");
    Ok(join(code.as_str(), "User"))
}

/// Get the VS Code user settings directory.
pub fn vscode_user_dir() -> (r: Result<String, BootstrapError>)
    ensures
        r is Err ==> (r matches Err(e) && e@ == ErrorView::Path("Could not determine APPDATA directory"@)),
        r matches Ok(q) ==> exists|p: Seq<char>| q@ == joined(joined(p, "Code"@), "User"@),
{
    vscode_user_dir_from(located_config())
}

/// The VS Code extensions directory under a located home directory.
pub fn vscode_extensions_dir_from(home: Option<String>) -> (r: Result<String, BootstrapError>)
    ensures
        match home {
            Some(p) => r matches Ok(q) && q@ == joined(joined(p@, ".vscode"@), "extensions"@),
            None => r matches Err(e) && e@ == ErrorView::Path("Could not determine home directory"@),
        },
{
    let base = home_dir_from(home)?;
    let dot = join(base.as_str(), ".vscode");
    Ok(join(dot.as_str(), "extensions"))
}

/// Get the VS Code extensions directory.
pub fn vscode_extensions_dir() -> (r: Result<String, BootstrapError>)
    ensures
        r is Err ==> (r matches Err(e) && e@ == ErrorView::Path("Could not determine home directory"@)),
        r matches Ok(q) ==> exists|p: Seq<char>| q@ == joined(joined(p, ".vscode"@), "extensions"@),
{
    vscode_extensions_dir_from(located_home())
}

/// The PowerShell profile path under a located Documents directory.
pub fn powershell_profile_path_from(documents: Option<String>) -> (r: Result<String, BootstrapError>)
    ensures
        match documents {
            Some(p) => r matches Ok(q) && q@ == joined(joined(p@, "PowerShell"@), "Microsoft.PowerShell_profile.ps1"@),
            None => r matches Err(e) && e@ == ErrorView::Path("Could not determine Documents directory"@),
        },
{
    match documents {
        Some(docs) => {
            let dir = join(docs.as_str(), "PowerShell");
            Ok(join(dir.as_str(), "Microsoft.PowerShell_profile.ps1"))
        },
        None => Err(BootstrapError::Path(owned("Could not determine Documents directory"))),
    }
}

/// Get the PowerShell profile path.
pub fn powershell_profile_path() -> (r: Result<String, BootstrapError>)
    ensures
        r is Err ==> (r matches Err(e) && e@ == ErrorView::Path("Could not determine Documents directory"@)),
        r matches Ok(q) ==> exists|p: Seq<char>| q@ == joined(joined(p, "PowerShell"@), "Microsoft.PowerShell_profile.ps1"@),
{
    powershell_profile_path_from(located_documents())
}

/// The PowerShell profile's directory and path under a located Documents directory.
pub fn powershell_profile_location_from(documents: Option<String>) -> (r: Result<(String, String), BootstrapError>)
    ensures
        match documents {
            Some(p) => r matches Ok((dir, file)) && dir@ == joined(p@, "PowerShell"@)
                && file@ == joined(dir@, "Microsoft.PowerShell_profile.ps1"@),
            None => r matches Err(e) && e@ == ErrorView::Path("Could not determine Documents directory"@),
        },
{
    match documents {
        Some(docs) => {
            let dir = join(docs.as_str(), "PowerShell");
            let file = join(dir.as_str(), "Microsoft.PowerShell_profile.ps1");
            Ok((dir, file))
        },
        None => Err(BootstrapError::Path(owned("Could not determine Documents directory"))),
    }
}

/// The PowerShell profile's directory and path.
pub fn powershell_profile_location() -> (r: Result<(String, String), BootstrapError>)
    ensures
        r is Err ==> (r matches Err(e) && e@ == ErrorView::Path("Could not determine Documents directory"@)),
        r matches Ok((dir, file)) ==> (exists|p: Seq<char>| dir@ == joined(p, "PowerShell"@))
            && file@ == joined(dir@, "Microsoft.PowerShell_profile.ps1"@),
{
    powershell_profile_location_from(located_documents())
}

/// The global Git config path under a located home directory.
pub fn git_config_path_from(home: Option<String>) -> (r: Result<String, BootstrapError>)
    ensures
        match home {
            Some(p) => r matches Ok(q) && q@ == joined(p@, ".gitconfig"@),
            None => r matches Err(e) && e@ == ErrorView::Path("Could not determine home directory"@),
        },
{
    let base = home_dir_from(home)?;
    Ok(join(base.as_str(), ".gitconfig"))
}

/// Get the global Git config path.
pub fn git_config_path() -> (r: Result<String, BootstrapError>)
    ensures
        r is Err ==> (r matches Err(e) && e@ == ErrorView::Path("Could not determine home directory"@)),
        r matches Ok(q) ==> exists|p: Seq<char>| q@ == joined(p, ".gitconfig"@),
{
    git_config_path_from(located_home())
}

/// The first character of the lowercase mapping of `c` (`char::to_lowercase`).
pub uninterp spec fn lowercase_first(c: char) -> char;

/// An ASCII capital letter.
pub open spec fn is_ascii_upper(c: char) -> bool {
    65 <= (c as int) <= 90
}

/// `char::to_lowercase`, first character of the mapping.
/// Claimed: the result is `lowercase_first(c)`; ASCII capitals map to the small
/// letter 32 code points above, other ASCII characters to themselves.
#[verifier::external_body]
fn to_lowercase_first(c: char) -> (r: char)
    ensures
        r == lowercase_first(c),
        is_ascii_upper(c) ==> (r as int) == (c as int) + 32,
        ((c as int) < 128 && !is_ascii_upper(c)) ==> r == c,
{
    c.to_lowercase().next().unwrap()
}

/// The number of bytes UTF-8 uses for `c`.
pub open spec fn utf8_width(c: char) -> nat {
    let n = c as int;
    if n < 0x80 {
        1
    } else if n < 0x800 {
        2
    } else if n < 0x10000 {
        3
    } else {
        4
    }
}

/// The path starts with a drive letter and a colon (`C:`).
pub open spec fn has_drive(p: Seq<char>) -> bool {
    p.len() >= 2 && p[1] == ':'
}

/// The conversion slices the path at byte 2, which falls inside the first
/// character when that one takes three or four bytes; such paths cannot be
/// converted.
pub open spec fn slicable(p: Seq<char>) -> bool {
    has_drive(p) ==> utf8_width(p[0]) <= 2
}

/// What follows byte 2 of a path with a drive prefix.
pub open spec fn after_drive(p: Seq<char>) -> Seq<char> {
    if utf8_width(p[0]) == 1 {
        p.skip(2)
    } else {
        p.skip(1)
    }
}

/// The ASCII lower case of a character: capitals `A`..`Z` become `a`..`z`,
/// every other character stays.
pub open spec fn ascii_lower(c: char) -> char {
    if is_ascii_upper(c) {
        ((c as int) + 32) as char
    } else {
        c
    }
}

/// An ASCII letter.
pub open spec fn is_ascii_letter(c: char) -> bool {
    is_ascii_upper(c) || 97 <= (c as int) <= 122
}

/// The drive letter of a WSL mount: the first character of the lower-case
/// mapping of the drive character, which for an ASCII character is its ASCII
/// lower case.
pub open spec fn drive_letter(c: char) -> char {
    if (c as int) < 128 {
        ascii_lower(c)
    } else {
        lowercase_first(c)
    }
}

/// The WSL form of a Windows path with a drive prefix: `/mnt/<drive><rest>`
/// with the drive letter in lower case and forward slashes.
pub open spec fn wsl_form(p: Seq<char>) -> Seq<char> {
    "/mnt/"@ + seq![drive_letter(p[0])] + replaced(after_drive(p), '\\', '/')
}

/// Whether a path can be converted (see `slicable`).
pub fn is_slicable(p: &str) -> (b: bool)
    ensures
        b == slicable(p@),
{
    let chars = chars_of(p);
    !(chars.len() >= 2 && chars[1] == ':' && chars[0] >= '\u{800}')
}

/// Joining keeps a path convertible when the base has its two first characters
/// already, or the component cannot start a drive prefix.
pub proof fn lemma_join_slicable(base: Seq<char>, segment: Seq<char>)
    requires
        slicable(base),
        base.len() >= 2 || (segment.len() >= 2 && segment[0] != ':' && segment[1] != ':'),
    ensures
        slicable(joined(base, segment)),
        joined(base, segment).len() >= base.len() + segment.len(),
{
    let j = joined(base, segment);
    if base.len() >= 2 {
        assert(j[0] == base[0] && j[1] == base[1]);
    } else if base.len() == 1 {
        if is_separator(base.last()) {
            assert(j[1] == segment[0]);
        } else {
            assert(j[1] == '\\');
        }
    }
}

/// Convert a Windows path to WSL path format.
pub fn to_wsl_path(path: &str) -> (r: Result<String, BootstrapError>)
    requires
        slicable(path@),
    ensures
        has_drive(path@) ==> (r matches Ok(w) && w@ == wsl_form(path@)),
        !has_drive(path@) ==> (r matches Err(e) && e@ == ErrorView::Path(
            "Cannot convert path to WSL format: "@ + path@,
        )),
{
    let chars = chars_of(path);
    if chars.len() >= 2 && chars[1] == ':' {
        let first = chars[0];
        let drive = to_lowercase_first(first);
        let start: usize = if (first as u32) < 0x80 { 2 } else { 1 };
        let rest = string_of(&chars, start, chars.len());
        assert(rest@ == after_drive(path@));
        let slashed = replace_char(rest.as_str(), '\\', '/');
        let mut out = owned("/mnt/");
        push_char(&mut out, drive);
        out.append(slashed.as_str());
        assert(out@ =~= wsl_form(path@));
        Ok(out)
    } else {
        Err(BootstrapError::Path(concat("Cannot convert path to WSL format: ", path)))
    }
}

/// A converted path is the `/mnt/` mount, the drive letter in lower case (an
/// ASCII letter for an ASCII letter), then the rest of the path with no
/// backslash left in it.
pub proof fn lemma_wsl_form_shape(p: Seq<char>)
    requires
        has_drive(p),
    ensures
        wsl_form(p).len() >= 6,
        wsl_form(p).subrange(0, 5) == "/mnt/"@,
        wsl_form(p)[5] == drive_letter(p[0]),
        is_ascii_letter(p[0]) ==> 97 <= (wsl_form(p)[5] as int) <= 122,
        forall|i: int| 6 <= i < wsl_form(p).len() ==> wsl_form(p)[i] != '\\',
{
    reveal_strlit("/mnt/");
    let rest = replaced(after_drive(p), '\\', '/');
    assert(wsl_form(p) == "/mnt/"@ + seq![drive_letter(p[0])] + rest);
    assert(wsl_form(p).subrange(0, 5) =~= "/mnt/"@);
    assert forall|i: int| 6 <= i < wsl_form(p).len() implies wsl_form(p)[i] != '\\' by {
        assert(wsl_form(p)[i] == rest[i - 6]);
    }
}

/// `p` lies below the directory `root`: it extends `root` by at least one
/// character, after a separator or a bare drive.
pub open spec fn under(root: Seq<char>, p: Seq<char>) -> bool {
    &&& p.len() > root.len()
    &&& p.subrange(0, root.len() as int) == root
    &&& (root.len() == 0 || is_separator(root.last()) || is_bare_drive(root) || is_separator(p[root.len() as int]))
}

/// Adding a non-empty component gives a path below the base.
pub proof fn lemma_joined_under(base: Seq<char>, segment: Seq<char>)
    requires
        segment.len() > 0,
    ensures
        under(base, joined(base, segment)),
{
    let j = joined(base, segment);
    if base.len() == 0 {
        assert(j.subrange(0, 0) =~= base);
    } else if is_separator(base.last()) || is_bare_drive(base) {
        assert(j == base + segment);
        assert(j.subrange(0, base.len() as int) =~= base);
    } else {
        assert(j == base + seq!['\\'] + segment);
        assert(j.subrange(0, base.len() as int) =~= base);
        assert(j[base.len() as int] == '\\');
    }
}

/// A path below a path below `root` lies below `root`.
pub proof fn lemma_under_transitive(root: Seq<char>, mid: Seq<char>, p: Seq<char>)
    requires
        under(root, mid),
        under(mid, p),
    ensures
        under(root, p),
{
    assert(p.subrange(0, root.len() as int) =~= mid.subrange(0, root.len() as int));
    if root.len() > 0 {
        assert(p[root.len() as int] == mid[root.len() as int]);
    }
}

/// A path two components below `root` lies below it, and so does the first
/// component.
pub proof fn lemma_joined2_under(root: Seq<char>, a: Seq<char>, b: Seq<char>)
    requires
        a.len() > 0,
        b.len() > 0,
    ensures
        under(root, joined(root, a)),
        under(root, joined(joined(root, a), b)),
{
    lemma_joined_under(root, a);
    lemma_joined_under(joined(root, a), b);
    lemma_under_transitive(root, joined(root, a), joined(joined(root, a), b));
}

/// The drive letter's case does not matter: two paths that differ only in the
/// case of an ASCII drive letter have the same WSL form.
pub proof fn lemma_wsl_form_ignores_drive_case(p: Seq<char>, q: Seq<char>)
    requires
        has_drive(p),
        p.len() == q.len(),
        forall|k: int| 0 < k < p.len() ==> p[k] == q[k],
        (p[0] as int) < 128,
        (q[0] as int) < 128,
        ascii_lower(p[0]) == ascii_lower(q[0]),
    ensures
        has_drive(q),
        wsl_form(p) == wsl_form(q),
{
    assert(after_drive(p) =~= after_drive(q));
}

} // verus!
