//! A JSON document as plain values, and the lookups the components make in it.

use crate::error::BootstrapError;
use vstd::prelude::*;

verus! {

/// A JSON value.  Numbers are kept as their text; an object keeps its members in order.
#[derive(Debug, PartialEq, Eq)]
pub enum JsonValue {
    Null,
    Bool(bool),
    Number(String),
    Str(String),
    Array(Vec<JsonValue>),
    Object(Vec<JsonMember>),
}

/// One member of a JSON object.
#[derive(Debug, PartialEq, Eq)]
pub struct JsonMember {
    pub key: String,
    pub value: JsonValue,
}

/// `serde_json::Value`, carried through as it is.
#[verifier::external_type_specification]
#[verifier::external_body]
pub struct ExJsonDocument(serde_json::Value);

/// The value `serde_json::from_str::<serde_json::Value>` parses from `text`, as
/// the library's value (see `parse_json`); `None` when serde_json refuses the
/// text.
pub uninterp spec fn parsed_json(text: Seq<char>) -> Option<JsonValue>;

/// A `serde_json::Value` as the library's value, variant for variant: a number
/// keeps the text serde_json writes for it, an object its members in
/// serde_json's order.  Claimed: nothing (`parse_json` names the whole parse).
#[verifier::external_body]
fn json_of(v: &serde_json::Value) -> JsonValue {
    match v {
        serde_json::Value::Null => JsonValue::Null,
        serde_json::Value::Bool(b) => JsonValue::Bool(*b),
        serde_json::Value::Number(n) => JsonValue::Number(n.to_string()),
        serde_json::Value::String(t) => JsonValue::Str(t.clone()),
        serde_json::Value::Array(items) => JsonValue::Array(items.iter().map(json_of).collect()),
        serde_json::Value::Object(m) => JsonValue::Object(
            m.iter().map(|(k, x)| JsonMember { key: k.clone(), value: json_of(x) }).collect(),
        ),
    }
}

/// Parses JSON text: `serde_json::from_str::<serde_json::Value>`, converted to
/// the library's value.  Claimed: the result is `parsed_json(text)` when
/// serde_json accepts the text, and a JSON error when it refuses it.
#[verifier::external_body]
pub(crate) fn parse_json(text: &str) -> (r: Result<JsonValue, BootstrapError>)
    ensures
        parsed_json(text@) is Some ==> r is Ok && r->Ok_0 == parsed_json(text@)->0,
        parsed_json(text@) is None ==> r is Err && r->Err_0 is Json,
{
    match serde_json::from_str::<serde_json::Value>(text) {
        Ok(v) => Ok(json_of(&v)),
        Err(e) => Err(BootstrapError::Json(e.to_string())),
    }
}

/// The value of the first member named `key`.
pub open spec fn member(members: Seq<JsonMember>, key: Seq<char>) -> Option<JsonValue>
    decreases members.len(),
{
    if members.len() == 0 {
        None
    } else if members[0].key@ == key {
        Some(members[0].value)
    } else {
        member(members.drop_first(), key)
    }
}

/// The member `key` of an object (`serde_json::Value::get` with a string key);
/// `None` for any other kind of value.
pub open spec fn field(v: JsonValue, key: Seq<char>) -> Option<JsonValue> {
    match v {
        JsonValue::Object(members) => member(members@, key),
        _ => None,
    }
}

impl JsonValue {
    /// The member `key` of an object.
    pub fn get(&self, key: &str) -> (r: Option<&JsonValue>)
        ensures
            match field(*self, key@) {
                Some(x) => r matches Some(y) && *y == x,
                None => r is None,
            },
    {
        match self {
            JsonValue::Object(members) => {
                let mut i: usize = 0;
                assert(members@.skip(0) =~= members@);
                while i < members.len()
                    invariant
                        field(*self, key@) == member(members@, key@),
                        i <= members@.len(),
                        member(members@, key@) == member(members@.skip(i as int), key@),
                    decreases members@.len() - i,
                {
                    assert(members@.skip(i as int)[0] == members@[i as int]);
                    if crate::text::same_text(members[i].key.as_str(), key) {
                        return Some(&members[i].value);
                    }
                    assert(members@.skip(i as int).drop_first() =~= members@.skip(i + 1));
                    i += 1;
                }
                None
            },
            _ => None,
        }
    }

    /// The text of a string value.
    pub fn as_str(&self) -> (r: Option<&str>)
        ensures
            match *self {
                JsonValue::Str(s) => r matches Some(t) && t@ == s@,
                _ => r is None,
            },
    {
        match self {
            JsonValue::Str(s) => Some(s.as_str()),
            _ => None,
        }
    }
}

/// The number of packages one source of a WinGet export lists.
pub open spec fn packages_in(source: JsonValue) -> nat {
    match field(source, "Packages"@) {
        Some(JsonValue::Array(p)) => p@.len(),
        _ => 0,
    }
}

/// The number of packages a list of sources lists.
pub open spec fn packages_total(sources: Seq<JsonValue>) -> nat
    decreases sources.len(),
{
    if sources.len() == 0 {
        0
    } else {
        packages_total(sources.drop_last()) + packages_in(sources.last())
    }
}

/// The number of packages in a WinGet export: the lengths of the `Packages`
/// arrays of the entries of the `Sources` array, summed.
pub open spec fn package_count(doc: JsonValue) -> nat {
    match field(doc, "Sources"@) {
        Some(JsonValue::Array(s)) => packages_total(s@),
        _ => 0,
    }
}

/// Counts the packages of a WinGet export; `None` when the count does not fit a `usize`.
pub fn count_packages(doc: &JsonValue) -> (r: Option<usize>)
    ensures
        package_count(*doc) <= usize::MAX ==> r == Some(package_count(*doc) as usize),
        package_count(*doc) > usize::MAX ==> r is None,
{
    match doc.get("Sources") {
        Some(JsonValue::Array(sources)) => {
            let mut total: usize = 0;
            let mut i: usize = 0;
            while i < sources.len()
                invariant
                    package_count(*doc) == packages_total(sources@),
                    i <= sources@.len(),
                    total == packages_total(sources@.subrange(0, i as int)),
                decreases sources@.len() - i,
            {
                assert(sources@.subrange(0, i + 1).drop_last() =~= sources@.subrange(0, i as int));
                let n: usize = match sources[i].get("Packages") {
                    Some(JsonValue::Array(p)) => p.len(),
                    _ => 0,
                };
                assert(n == packages_in(sources@[i as int]));
                assert(packages_total(sources@.subrange(0, i + 1)) == total + n);
                if total > usize::MAX - n {
                    proof {
                        lemma_total_grows(sources@, (i + 1) as int);
                    }
                    return None;
                }
                total = total + n;
                i += 1;
            }
            assert(sources@.subrange(0, sources@.len() as int) =~= sources@);
            Some(total)
        },
        _ => Some(0),
    }
}

/// A prefix lists no more packages than the whole list.
proof fn lemma_total_grows(sources: Seq<JsonValue>, k: int)
    requires
        0 <= k <= sources.len(),
    ensures
        packages_total(sources.subrange(0, k)) <= packages_total(sources),
    decreases sources.len() - k,
{
    if k < sources.len() {
        lemma_total_grows(sources, k + 1);
        assert(sources.subrange(0, k + 1).drop_last() =~= sources.subrange(0, k));
    } else {
        assert(sources.subrange(0, k) =~= sources);
    }
}

} // verus!
