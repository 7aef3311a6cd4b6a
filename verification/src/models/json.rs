//! What the library asks of the JSON reader and writer. Every question is put to the text
//! of a document; a pointer names a value in it by the keys and places that lead there.

use vstd::prelude::*;
use crate::text::{opt_text, replace_all, replaced, texts};

verus! {

/// The kinds of value in a JSON document.
#[derive(Debug, Clone, Copy, PartialEq, Eq, Structural)]
pub enum JsonKind {
    Null,
    Bool,
    Number,
    Text,
    Array,
    Object,
}

/// Why `text` is no JSON document, in the reader's words; `None` for a document.
pub uninterp spec fn json_fault(text: Seq<char>) -> Option<Seq<char>>;

/// The kind of the value that `pointer` names in the document `text`; `None` where `text`
/// is no document or `pointer` names nothing in it.
pub uninterp spec fn json_kind_by(text: Seq<char>, pointer: Seq<char>) -> Option<JsonKind>;

/// The string that `pointer` names in the document `text`; `None` where it names none.
pub uninterp spec fn json_text_by(text: Seq<char>, pointer: Seq<char>) -> Option<Seq<char>>;

/// The truth value that `pointer` names in the document `text`.
pub uninterp spec fn json_bool_by(text: Seq<char>, pointer: Seq<char>) -> Option<bool>;

/// The count that `pointer` names in the document `text`: a whole number from 0 to the
/// largest `u64`.
pub uninterp spec fn json_count_by(text: Seq<char>, pointer: Seq<char>) -> Option<u64>;

/// The length of the array that `pointer` names in the document `text`.
pub uninterp spec fn json_len_by(text: Seq<char>, pointer: Seq<char>) -> Option<usize>;

/// The list of strings that `pointer` names in the document `text`.
pub uninterp spec fn json_list_by(text: Seq<char>, pointer: Seq<char>) -> Option<
    Seq<Seq<char>>,
>;

/// The keys of the object that `pointer` names in the document `text`, in the order in
/// which the reader keeps them.
pub uninterp spec fn json_keys_by(text: Seq<char>, pointer: Seq<char>) -> Option<
    Seq<Seq<char>>,
>;

/// How the writer puts down a string: between double quotes, with what needs it escaped.
pub uninterp spec fn json_string(text: Seq<char>) -> Seq<char>;

/// Reads `text` with `serde_json::from_str` as a `serde_json::Value` and hands back the
/// message of the error, if reading fails.
#[verifier::external_body]
pub(crate) fn json_error(text: &str) -> (r: Option<String>)
    ensures
        opt_text(r) == json_fault(text@),
{
    match serde_json::from_str::<serde_json::Value>(text) {
        Ok(_) => None,
        Err(e) => Some(e.to_string()),
    }
}

/// Reads `text` with `serde_json::from_str`, looks `pointer` up with `Value::pointer`, and
/// tells which variant of `serde_json::Value` stands there.
#[verifier::external_body]
fn kind_by(text: &str, pointer: &str) -> (r: Option<JsonKind>)
    ensures
        r == json_kind_by(text@, pointer@),
{
    let doc = serde_json::from_str::<serde_json::Value>(text).ok()?;
    Some(
        match doc.pointer(pointer)? {
            serde_json::Value::Null => JsonKind::Null,
            serde_json::Value::Bool(_) => JsonKind::Bool,
            serde_json::Value::Number(_) => JsonKind::Number,
            serde_json::Value::String(_) => JsonKind::Text,
            serde_json::Value::Array(_) => JsonKind::Array,
            serde_json::Value::Object(_) => JsonKind::Object,
        },
    )
}

/// Reads `text` with `serde_json::from_str`, looks `pointer` up with `Value::pointer`, and
/// hands back what `Value::as_str` gives there.
#[verifier::external_body]
fn text_by(text: &str, pointer: &str) -> (r: Option<String>)
    ensures
        opt_text(r) == json_text_by(text@, pointer@),
{
    let doc = serde_json::from_str::<serde_json::Value>(text).ok()?;
    doc.pointer(pointer)?.as_str().map(String::from)
}

/// Reads `text` with `serde_json::from_str`, looks `pointer` up with `Value::pointer`, and
/// hands back what `Value::as_bool` gives there.
#[verifier::external_body]
fn bool_by(text: &str, pointer: &str) -> (r: Option<bool>)
    ensures
        r == json_bool_by(text@, pointer@),
{
    let doc = serde_json::from_str::<serde_json::Value>(text).ok()?;
    doc.pointer(pointer)?.as_bool()
}

/// Reads `text` with `serde_json::from_str`, looks `pointer` up with `Value::pointer`, and
/// hands back what `Value::as_u64` gives there.
#[verifier::external_body]
fn count_by(text: &str, pointer: &str) -> (r: Option<u64>)
    ensures
        r == json_count_by(text@, pointer@),
{
    let doc = serde_json::from_str::<serde_json::Value>(text).ok()?;
    doc.pointer(pointer)?.as_u64()
}

/// Reads `text` with `serde_json::from_str`, looks `pointer` up with `Value::pointer`, and
/// hands back the length of what `Value::as_array` gives there.
#[verifier::external_body]
fn len_by(text: &str, pointer: &str) -> (r: Option<usize>)
    ensures
        r == json_len_by(text@, pointer@),
{
    let doc = serde_json::from_str::<serde_json::Value>(text).ok()?;
    Some(doc.pointer(pointer)?.as_array()?.len())
}

/// Reads `text` with `serde_json::from_str`, looks `pointer` up with `Value::pointer`, and
/// hands back what `serde_json::from_value` makes of the value there as a list of strings.
#[verifier::external_body]
fn list_by(text: &str, pointer: &str) -> (r: Option<Vec<String>>)
    ensures
        match r {
            Some(v) => json_list_by(text@, pointer@) == Some(texts(v@)),
            None => json_list_by(text@, pointer@) is None,
        },
{
    let doc = serde_json::from_str::<serde_json::Value>(text).ok()?;
    serde_json::from_value::<Vec<String>>(doc.pointer(pointer)?.clone()).ok()
}

/// Reads `text` with `serde_json::from_str`, looks `pointer` up with `Value::pointer`, and
/// hands back the keys of what `Value::as_object` gives there, as its `keys` iterates
/// them.
#[verifier::external_body]
fn keys_by(text: &str, pointer: &str) -> (r: Option<Vec<String>>)
    ensures
        match r {
            Some(v) => json_keys_by(text@, pointer@) == Some(texts(v@)),
            None => json_keys_by(text@, pointer@) is None,
        },
{
    let doc = serde_json::from_str::<serde_json::Value>(text).ok()?;
    Some(doc.pointer(pointer)?.as_object()?.keys().cloned().collect())
}

/// Writes the string `text` with `serde_json::to_string`; empty where the writer fails.
#[verifier::external_body]
pub(crate) fn json_quote(text: &str) -> (r: String)
    ensures
        r@ == json_string(text@),
{
    serde_json::to_string(text).unwrap_or_default()
}

/// A key as it stands in a pointer: with `~0` for every `~` and `~1` for every `/`.
pub open spec fn escaped(key: Seq<char>) -> Seq<char> {
    replaced(replaced(key, "~"@, "~0"@), "/"@, "~1"@)
}

/// The pointer to the value that `path` leads to: every key or place of `path`, each
/// after a `/`. The empty path points to the whole document.
pub open spec fn pointer_of(path: Seq<Seq<char>>) -> Seq<char>
    decreases path.len(),
{
    if path.len() == 0 {
        Seq::<char>::empty()
    } else {
        pointer_of(path.drop_last()) + "/"@ + escaped(path.last())
    }
}

/// The pointer to the value that `path` leads to.
pub fn pointer(path: &Vec<String>) -> (r: String)
    ensures
        r@ == pointer_of(texts(path@)),
{
    let mut r = String::new();
    let mut i: usize = 0;
    assert(texts(path@).take(0) =~= Seq::<Seq<char>>::empty());
    while i < path.len()
        invariant
            i <= path.len(),
            r@ == pointer_of(texts(path@).take(i as int)),
        decreases path.len() - i,
    {
        proof {
            assert(texts(path@).take(i + 1).drop_last() =~= texts(path@).take(i as int));
            assert(texts(path@).take(i + 1).last() == path@[i as int]@);
        }
        r.append("/");
        let a = replace_all(path[i].as_str(), "~", "~0");
        let b = replace_all(a.as_str(), "/", "~1");
        r.append(b.as_str());
        i += 1;
    }
    assert(texts(path@).take(path.len() as int) =~= texts(path@));
    r
}

/// The kind of the value at `path` in the document `text`.
pub open spec fn json_kind_at(text: Seq<char>, path: Seq<Seq<char>>) -> Option<JsonKind> {
    json_kind_by(text, pointer_of(path))
}

/// The string at `path` in the document `text`; `None` where there is none.
pub open spec fn json_text_at(text: Seq<char>, path: Seq<Seq<char>>) -> Option<Seq<char>> {
    json_text_by(text, pointer_of(path))
}

/// The truth value at `path` in the document `text`; `None` where there is none.
pub open spec fn json_bool_at(text: Seq<char>, path: Seq<Seq<char>>) -> Option<bool> {
    json_bool_by(text, pointer_of(path))
}

/// The count at `path` in the document `text`; `None` where there is none.
pub open spec fn json_count_at(text: Seq<char>, path: Seq<Seq<char>>) -> Option<u64> {
    json_count_by(text, pointer_of(path))
}

/// The length of the array at `path` in the document `text`.
pub open spec fn json_len_at(text: Seq<char>, path: Seq<Seq<char>>) -> Option<usize> {
    json_len_by(text, pointer_of(path))
}

/// The list of strings at `path` in the document `text`; `None` where there is none.
pub open spec fn json_list_at(text: Seq<char>, path: Seq<Seq<char>>) -> Option<Seq<Seq<char>>> {
    json_list_by(text, pointer_of(path))
}

/// The keys of the object at `path` in the document `text`; `None` where no object stands
/// there.
pub open spec fn json_keys_at(text: Seq<char>, path: Seq<Seq<char>>) -> Option<Seq<Seq<char>>> {
    json_keys_by(text, pointer_of(path))
}

/// The kind of the value at `path` in the document `text`.
pub fn json_kind(text: &str, path: &Vec<String>) -> (r: Option<JsonKind>)
    ensures
        r == json_kind_at(text@, texts(path@)),
{
    kind_by(text, pointer(path).as_str())
}

/// The string at `path` in the document `text`.
pub fn json_text(text: &str, path: &Vec<String>) -> (r: Option<String>)
    ensures
        opt_text(r) == json_text_at(text@, texts(path@)),
{
    text_by(text, pointer(path).as_str())
}

/// The truth value at `path` in the document `text`.
pub fn json_bool(text: &str, path: &Vec<String>) -> (r: Option<bool>)
    ensures
        r == json_bool_at(text@, texts(path@)),
{
    bool_by(text, pointer(path).as_str())
}

/// The count at `path` in the document `text`.
pub fn json_count(text: &str, path: &Vec<String>) -> (r: Option<u64>)
    ensures
        r == json_count_at(text@, texts(path@)),
{
    count_by(text, pointer(path).as_str())
}

/// The length of the array at `path` in the document `text`.
pub fn json_len(text: &str, path: &Vec<String>) -> (r: Option<usize>)
    ensures
        r == json_len_at(text@, texts(path@)),
{
    len_by(text, pointer(path).as_str())
}

/// The list of strings at `path` in the document `text`.
pub fn json_list(text: &str, path: &Vec<String>) -> (r: Option<Vec<String>>)
    ensures
        match r {
            Some(v) => json_list_at(text@, texts(path@)) == Some(texts(v@)),
            None => json_list_at(text@, texts(path@)) is None,
        },
{
    list_by(text, pointer(path).as_str())
}

/// The keys of the object at `path` in the document `text`.
pub fn json_keys(text: &str, path: &Vec<String>) -> (r: Option<Vec<String>>)
    ensures
        match r {
            Some(v) => json_keys_at(text@, texts(path@)) == Some(texts(v@)),
            None => json_keys_at(text@, texts(path@)) is None,
        },
{
    keys_by(text, pointer(path).as_str())
}

} // verus!
