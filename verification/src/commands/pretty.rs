//! JSON in the indented form: an object or an array stands with each of its members on a
//! line of its own, two blanks deeper than the line that opens it.

use vstd::prelude::*;
use crate::models::json::{json_quote, json_string};
use crate::text::{decimal, join, joined, push_decimal, push_signed_decimal, signed_decimal, texts};

verus! {

/// A member of an object: the key between quotes, a colon, and the value.
pub open spec fn member(key: Seq<char>, value: Seq<char>) -> Seq<char> {
    "\""@ + key + "\": "@ + value
}

/// The lines of `items`, each after `indent` and two blanks.
pub open spec fn indented(items: Seq<Seq<char>>, indent: Seq<char>) -> Seq<Seq<char>> {
    items.map_values(|i: Seq<char>| indent + "  "@ + i)
}

/// `items` between `open` and `close`: on lines of their own with commas between them,
/// or nothing between the two where there are none.
pub open spec fn block(
    open: Seq<char>,
    close: Seq<char>,
    items: Seq<Seq<char>>,
    indent: Seq<char>,
) -> Seq<char> {
    if items.len() == 0 {
        open + close
    } else {
        open + "\n"@ + joined(indented(items, indent), ",\n"@) + "\n"@ + indent + close
    }
}

/// An object with the members `members`, opened on a line that begins with `indent`.
pub open spec fn object_text(members: Seq<Seq<char>>, indent: Seq<char>) -> Seq<char> {
    block("{"@, "}"@, members, indent)
}

/// An array with the items `items`, opened on a line that begins with `indent`.
pub open spec fn array_text(items: Seq<Seq<char>>, indent: Seq<char>) -> Seq<char> {
    block("["@, "]"@, items, indent)
}

/// How a truth value is written.
pub open spec fn bool_text(b: bool) -> Seq<char> {
    if b {
        "true"@
    } else {
        "false"@
    }
}

/// The one element `item`, or nothing.
pub open spec fn maybe(item: Option<Seq<char>>) -> Seq<Seq<char>> {
    match item {
        Some(i) => seq![i],
        None => Seq::<Seq<char>>::empty(),
    }
}

fn write_block(open: &str, close: &str, items: &Vec<String>, indent: &str) -> (r: String)
    ensures
        r@ == block(open@, close@, texts(items@), indent@),
{
    let mut r = String::from_str(open);
    if items.len() == 0 {
        r.append(close);
        return r;
    }
    let mut lines: Vec<String> = Vec::new();
    let mut i: usize = 0;
    while i < items.len()
        invariant
            i <= items.len(),
            lines.len() == i,
            forall|k: int|
                0 <= k < i ==> (#[trigger] lines@[k])@ == indent@ + "  "@ + items@[k]@,
        decreases items.len() - i,
    {
        let mut line = String::from_str(indent);
        line.append("  ");
        line.append(items[i].as_str());
        lines.push(line);
        i += 1;
    }
    assert(texts(lines@) =~= indented(texts(items@), indent@));
    r.append("\n");
    r.append(join(&lines, ",\n").as_str());
    r.append("\n");
    r.append(indent);
    r.append(close);
    r
}

/// An object with the members `members`.
pub fn object(members: &Vec<String>, indent: &str) -> (r: String)
    ensures
        r@ == object_text(texts(members@), indent@),
{
    write_block("{", "}", members, indent)
}

/// An array with the items `items`.
pub fn array(items: &Vec<String>, indent: &str) -> (r: String)
    ensures
        r@ == array_text(texts(items@), indent@),
{
    write_block("[", "]", items, indent)
}

/// A member with the value as it stands.
pub fn raw_member(key: &str, value: &str) -> (r: String)
    ensures
        r@ == member(key@, value@),
{
    let mut r = String::from_str("\"");
    r.append(key);
    r.append("\": ");
    r.append(value);
    r
}

/// A member whose value is a string.
pub fn text_member(key: &str, value: &str) -> (r: String)
    ensures
        r@ == member(key@, json_string(value@)),
{
    raw_member(key, json_quote(value).as_str())
}

/// A member whose value is a whole number.
pub fn number_member(key: &str, value: i64) -> (r: String)
    ensures
        r@ == member(key@, signed_decimal(value as int)),
{
    let mut v = String::new();
    push_signed_decimal(&mut v, value);
    assert(v@ =~= signed_decimal(value as int));
    raw_member(key, v.as_str())
}

/// A member whose value is a count.
pub fn count_member(key: &str, value: u64) -> (r: String)
    ensures
        r@ == member(key@, decimal(value as nat)),
{
    let mut v = String::new();
    push_decimal(&mut v, value);
    assert(v@ =~= decimal(value as nat));
    raw_member(key, v.as_str())
}

/// A member whose value is a truth value.
pub fn bool_member(key: &str, value: bool) -> (r: String)
    ensures
        r@ == member(key@, bool_text(value)),
{
    if value {
        raw_member(key, "true")
    } else {
        raw_member(key, "false")
    }
}

/// Adds `item` to `out`, where there is one.
pub fn push_maybe(out: &mut Vec<String>, item: Option<String>)
    ensures
        texts(final(out)@) == texts(old(out)@) + maybe(
            match item {
                Some(i) => Some(i@),
                None => None,
            },
        ),
{
    let ghost before = texts(out@);
    match item {
        Some(i) => {
            out.push(i);
            assert(texts(out@) =~= before + seq![i@]);
        },
        None => {
            assert(texts(out@) =~= before + Seq::<Seq<char>>::empty());
        },
    }
}

} // verus!
