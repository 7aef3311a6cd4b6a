//! What the library asks of the YAML reader and writer. Every question is put to the text
//! of a document and names one key; a path of keys is followed section by section.

use vstd::prelude::*;
use crate::text::{opt_text, texts};

verus! {

/// The kinds of value in a YAML document.
#[derive(Debug, Clone, Copy, PartialEq, Eq, Structural)]
pub enum YamlKind {
    Null,
    Bool,
    Number,
    Text,
    Sequence,
    Mapping,
    Tagged,
}

/// Why `text` is no YAML document, in the reader's words; `None` for a document.
pub uninterp spec fn yaml_fault(text: Seq<char>) -> Option<Seq<char>>;

/// The kind of the document `text` as a whole; `None` where `text` is no document.
pub uninterp spec fn yaml_whole_kind(text: Seq<char>) -> Option<YamlKind>;

/// The kind of the value under `key` in the document `text`; `None` where `text` is no
/// document or holds nothing under `key`.
pub uninterp spec fn yaml_kind_of(text: Seq<char>, key: Seq<char>) -> Option<YamlKind>;

/// The text of the scalar under `key` in the document `text`: the characters of a string,
/// and a number or a truth value as the reader writes it. `None` where no string, number
/// or truth value stands there.
pub uninterp spec fn yaml_text_of(text: Seq<char>, key: Seq<char>) -> Option<Seq<char>>;

/// The length of the sequence under `key` in the document `text`; `None` where no
/// sequence stands there.
pub uninterp spec fn yaml_count_of(text: Seq<char>, key: Seq<char>) -> Option<usize>;

/// The text of the scalar at place `index` of what stands under `key` in the document
/// `text`, read as `yaml_text_of` reads a scalar; `None` where there is none.
pub uninterp spec fn yaml_item_of(text: Seq<char>, key: Seq<char>, index: int) -> Option<
    Seq<char>,
>;

/// The value under `key` in the document `text`, written as a document of its own;
/// `None` where `text` is no document or holds nothing under `key`.
pub uninterp spec fn yaml_section_of(text: Seq<char>, key: Seq<char>) -> Option<Seq<char>>;

/// How the writer puts down a string that stands alone, line end included.
pub uninterp spec fn yaml_scalar(text: Seq<char>) -> Seq<char>;

/// How the writer puts down a list of strings, one item to a line.
pub uninterp spec fn yaml_sequence(items: Seq<Seq<char>>) -> Seq<char>;

/// Reads `text` with `serde_yaml::from_str` as a `serde_yaml::Value` and hands back the
/// message of the error, if reading fails.
#[verifier::external_body]
pub(crate) fn yaml_error(text: &str) -> (r: Option<String>)
    ensures
        opt_text(r) == yaml_fault(text@),
{
    match serde_yaml::from_str::<serde_yaml::Value>(text) {
        Ok(_) => None,
        Err(e) => Some(e.to_string()),
    }
}

/// Reads `text` with `serde_yaml::from_str` and tells which variant of
/// `serde_yaml::Value` the document is.
#[verifier::external_body]
fn whole_kind(text: &str) -> (r: Option<YamlKind>)
    ensures
        r == yaml_whole_kind(text@),
{
    Some(
        match serde_yaml::from_str::<serde_yaml::Value>(text).ok()? {
            serde_yaml::Value::Null => YamlKind::Null,
            serde_yaml::Value::Bool(_) => YamlKind::Bool,
            serde_yaml::Value::Number(_) => YamlKind::Number,
            serde_yaml::Value::String(_) => YamlKind::Text,
            serde_yaml::Value::Sequence(_) => YamlKind::Sequence,
            serde_yaml::Value::Mapping(_) => YamlKind::Mapping,
            serde_yaml::Value::Tagged(_) => YamlKind::Tagged,
        },
    )
}

/// Reads `text` with `serde_yaml::from_str`, looks `key` up with `Value::get`, and tells
/// which variant of `serde_yaml::Value` stands there.
#[verifier::external_body]
fn kind_of(text: &str, key: &str) -> (r: Option<YamlKind>)
    ensures
        r == yaml_kind_of(text@, key@),
{
    Some(
        match serde_yaml::from_str::<serde_yaml::Value>(text).ok()?.get(key)? {
            serde_yaml::Value::Null => YamlKind::Null,
            serde_yaml::Value::Bool(_) => YamlKind::Bool,
            serde_yaml::Value::Number(_) => YamlKind::Number,
            serde_yaml::Value::String(_) => YamlKind::Text,
            serde_yaml::Value::Sequence(_) => YamlKind::Sequence,
            serde_yaml::Value::Mapping(_) => YamlKind::Mapping,
            serde_yaml::Value::Tagged(_) => YamlKind::Tagged,
        },
    )
}

/// Reads `text` with `serde_yaml::from_str`, looks `key` up with `Value::get`, and hands
/// back the scalar there as text: a string as it is, a number and a truth value through
/// their `to_string`.
#[verifier::external_body]
fn text_of(text: &str, key: &str) -> (r: Option<String>)
    ensures
        opt_text(r) == yaml_text_of(text@, key@),
{
    match serde_yaml::from_str::<serde_yaml::Value>(text).ok()?.get(key)? {
        serde_yaml::Value::String(s) => Some(s.clone()),
        serde_yaml::Value::Number(n) => Some(n.to_string()),
        serde_yaml::Value::Bool(b) => Some(b.to_string()),
        _ => None,
    }
}

/// Reads `text` with `serde_yaml::from_str`, looks `key` up with `Value::get`, and hands
/// back the length of what `Value::as_sequence` gives there.
#[verifier::external_body]
fn count_of(text: &str, key: &str) -> (r: Option<usize>)
    ensures
        r == yaml_count_of(text@, key@),
{
    let doc = serde_yaml::from_str::<serde_yaml::Value>(text).ok()?;
    Some(doc.get(key)?.as_sequence()?.len())
}

/// Reads `text` with `serde_yaml::from_str`, looks up `key` and then `index` with
/// `Value::get`, and hands back the scalar there as text: a string as it is, a number
/// and a truth value through their `to_string`.
#[verifier::external_body]
fn item_of(text: &str, key: &str, index: usize) -> (r: Option<String>)
    ensures
        opt_text(r) == yaml_item_of(text@, key@, index as int),
{
    match serde_yaml::from_str::<serde_yaml::Value>(text).ok()?.get(key)?.get(index)? {
        serde_yaml::Value::String(s) => Some(s.clone()),
        serde_yaml::Value::Number(n) => Some(n.to_string()),
        serde_yaml::Value::Bool(b) => Some(b.to_string()),
        _ => None,
    }
}

/// Reads `text` with `serde_yaml::from_str`, looks `key` up with `Value::get`, and writes
/// the value there with `serde_yaml::to_string`.
#[verifier::external_body]
fn section_of(text: &str, key: &str) -> (r: Option<String>)
    ensures
        opt_text(r) == yaml_section_of(text@, key@),
{
    let doc = serde_yaml::from_str::<serde_yaml::Value>(text).ok()?;
    serde_yaml::to_string(doc.get(key)?).ok()
}

/// The document that holds the last key of `path`: `text` itself for a path of one key,
/// and else the section that the keys before the last lead to, each section written as
/// a document of its own. `None` where a key on the way leads nowhere.
pub open spec fn holder(text: Seq<char>, path: Seq<Seq<char>>) -> Option<Seq<char>>
    decreases path.len(),
{
    if path.len() <= 1 {
        Some(text)
    } else {
        match yaml_section_of(text, path[0]) {
            Some(section) => holder(section, path.drop_first()),
            None => None,
        }
    }
}

/// The kind of the value at `path` in the document `text`; for the empty path, the kind
/// of the document. `None` where `text` is no document or holds nothing at `path`.
pub open spec fn yaml_kind_at(text: Seq<char>, path: Seq<Seq<char>>) -> Option<YamlKind> {
    if path.len() == 0 {
        yaml_whole_kind(text)
    } else {
        match holder(text, path) {
            Some(h) => yaml_kind_of(h, path.last()),
            None => None,
        }
    }
}

/// The text of the scalar at `path` in the document `text`; `None` where no string,
/// number or truth value stands there.
pub open spec fn yaml_text_at(text: Seq<char>, path: Seq<Seq<char>>) -> Option<Seq<char>> {
    if path.len() == 0 {
        None
    } else {
        match holder(text, path) {
            Some(h) => yaml_text_of(h, path.last()),
            None => None,
        }
    }
}

/// The list of scalars under `key` in the document `text`, each as text: the items of the
/// sequence there, in order. `None` where no sequence stands there, or one with an item
/// that is no string, number or truth value.
pub open spec fn yaml_list_of(text: Seq<char>, key: Seq<char>) -> Option<Seq<Seq<char>>> {
    match yaml_count_of(text, key) {
        None => None,
        Some(n) => if forall|i: int| 0 <= i < n ==> (#[trigger] yaml_item_of(text, key, i)) is Some {
            Some(Seq::new(n as nat, |i: int| yaml_item_of(text, key, i)->Some_0))
        } else {
            None
        },
    }
}

/// The list of scalars at `path` in the document `text`, each as text.
pub open spec fn yaml_list_at(text: Seq<char>, path: Seq<Seq<char>>) -> Option<Seq<Seq<char>>> {
    if path.len() == 0 {
        None
    } else {
        match holder(text, path) {
            Some(h) => yaml_list_of(h, path.last()),
            None => None,
        }
    }
}

/// The document that holds the last key of `path`.
fn descend(text: &str, path: &Vec<String>) -> (r: Option<String>)
    ensures
        opt_text(r) == holder(text@, texts(path@)),
{
    let mut cur = String::from_str(text);
    let mut i: usize = 0;
    assert(texts(path@).skip(0) =~= texts(path@));
    while path.len() - i > 1
        invariant
            i <= path.len(),
            holder(text@, texts(path@)) == holder(cur@, texts(path@).skip(i as int)),
        decreases path.len() - i,
    {
        proof {
            let rest = texts(path@).skip(i as int);
            assert(rest.len() >= 2);
            assert(rest[0] == path@[i as int]@);
            assert(rest.drop_first() =~= texts(path@).skip(i + 1));
        }
        match section_of(cur.as_str(), path[i].as_str()) {
            Some(section) => {
                cur = section;
            },
            None => {
                return None;
            },
        }
        i += 1;
    }
    assert(texts(path@).skip(i as int).len() <= 1);
    Some(cur)
}

/// The kind of the value at `path` in the document `text`.
pub fn yaml_kind(text: &str, path: &Vec<String>) -> (r: Option<YamlKind>)
    ensures
        r == yaml_kind_at(text@, texts(path@)),
{
    if path.len() == 0 {
        return whole_kind(text);
    }
    assert(texts(path@).last() == path@[path.len() - 1]@);
    match descend(text, path) {
        Some(h) => kind_of(h.as_str(), path[path.len() - 1].as_str()),
        None => None,
    }
}

/// The text of the scalar at `path` in the document `text`.
pub fn yaml_text(text: &str, path: &Vec<String>) -> (r: Option<String>)
    ensures
        opt_text(r) == yaml_text_at(text@, texts(path@)),
{
    if path.len() == 0 {
        return None;
    }
    assert(texts(path@).last() == path@[path.len() - 1]@);
    match descend(text, path) {
        Some(h) => text_of(h.as_str(), path[path.len() - 1].as_str()),
        None => None,
    }
}

/// The list of scalars under `key` in the document `text`, each as text.
fn list_of(text: &str, key: &str) -> (r: Option<Vec<String>>)
    ensures
        match r {
            Some(v) => yaml_list_of(text@, key@) == Some(texts(v@)),
            None => yaml_list_of(text@, key@) is None,
        },
{
    let n = match count_of(text, key) {
        Some(n) => n,
        None => {
            return None;
        },
    };
    let mut r: Vec<String> = Vec::new();
    let mut i: usize = 0;
    while i < n
        invariant
            i <= n,
            r@.len() == i,
            yaml_count_of(text@, key@) == Some(n),
            forall|k: int| 0 <= k < i ==> yaml_item_of(text@, key@, k) == Some((#[trigger] r@[k])@),
        decreases n - i,
    {
        match item_of(text, key, i) {
            Some(item) => {
                r.push(item);
            },
            None => {
                return None;
            },
        }
        i += 1;
    }
    proof {
        assert forall|k: int| 0 <= k < n implies (#[trigger] yaml_item_of(text@, key@, k)) is Some by {
            assert(yaml_item_of(text@, key@, k) == Some(r@[k]@));
        }
        assert forall|k: int| 0 <= k < n implies texts(r@)[k] == yaml_item_of(
            text@,
            key@,
            k,
        )->Some_0 by {
            assert(yaml_item_of(text@, key@, k) == Some(r@[k]@));
        }
        assert(texts(r@) =~= Seq::new(n as nat, |i: int| yaml_item_of(text@, key@, i)->Some_0));
    }
    Some(r)
}

/// The list of scalars at `path` in the document `text`, each as text.
pub fn yaml_list(text: &str, path: &Vec<String>) -> (r: Option<Vec<String>>)
    ensures
        match r {
            Some(v) => yaml_list_at(text@, texts(path@)) == Some(texts(v@)),
            None => yaml_list_at(text@, texts(path@)) is None,
        },
{
    if path.len() == 0 {
        return None;
    }
    assert(texts(path@).last() == path@[path.len() - 1]@);
    match descend(text, path) {
        Some(h) => list_of(h.as_str(), path[path.len() - 1].as_str()),
        None => None,
    }
}

/// Writes the string `text` with `serde_yaml::to_string`; empty where the writer fails.
#[verifier::external_body]
pub(crate) fn yaml_write_scalar(text: &str) -> (r: String)
    ensures
        r@ == yaml_scalar(text@),
{
    serde_yaml::to_string(text).unwrap_or_default()
}

/// Writes the list `items` with `serde_yaml::to_string`; empty where the writer fails.
#[verifier::external_body]
pub(crate) fn yaml_write_sequence(items: &Vec<String>) -> (r: String)
    ensures
        r@ == yaml_sequence(texts(items@)),
{
    serde_yaml::to_string(items).unwrap_or_default()
}

/// The path of one key.
pub fn key(name: &str) -> (r: Vec<String>)
    ensures
        texts(r@) == seq![name@],
        r.len() == 1,
{
    let mut r: Vec<String> = Vec::new();
    r.push(String::from_str(name));
    assert(texts(r@) =~= seq![name@]);
    r
}

/// The path of a key within a section.
pub fn key_in(section: &str, name: &str) -> (r: Vec<String>)
    ensures
        texts(r@) == seq![section@, name@],
        r.len() == 2,
{
    let mut r: Vec<String> = Vec::new();
    r.push(String::from_str(section));
    r.push(String::from_str(name));
    assert(texts(r@) =~= seq![section@, name@]);
    r
}

} // verus!
