//! Taking fields out of a JSON value at every depth, as the extraction of logs does.

use vstd::prelude::*;
use crate::text::{texts, texts_contain};

verus! {

/// A JSON value, as plain sequences. A number is held as it is written.
pub enum JsonModel {
    Null,
    Bool(bool),
    Number(Seq<char>),
    Text(Seq<char>),
    Array(Seq<JsonModel>),
    Object(Seq<MemberModel>),
}

/// A member of an object, as plain sequences.
pub struct MemberModel {
    pub key: Seq<char>,
    pub value: JsonModel,
}

/// A member of an object: a key and the value under it.
#[derive(Debug)]
pub struct Member {
    pub key: String,
    pub value: Json,
}

/// A JSON value. A number is held as it is written; the members of an object keep their
/// order.
#[derive(Debug)]
pub enum Json {
    Null,
    Bool(bool),
    Number(String),
    Text(String),
    Array(Vec<Json>),
    Object(Vec<Member>),
}

impl View for Json {
    type V = JsonModel;

    open spec fn view(&self) -> JsonModel
        decreases self,
    {
        match self {
            Json::Null => JsonModel::Null,
            Json::Bool(b) => JsonModel::Bool(*b),
            Json::Number(n) => JsonModel::Number(n@),
            Json::Text(t) => JsonModel::Text(t@),
            Json::Array(items) => JsonModel::Array(
                Seq::new(
                    items.len() as nat,
                    |i: int|
                        if 0 <= i < items.len() {
                            items[i]@
                        } else {
                            JsonModel::Null
                        },
                ),
            ),
            Json::Object(members) => JsonModel::Object(
                Seq::new(
                    members.len() as nat,
                    |i: int|
                        if 0 <= i < members.len() {
                            MemberModel { key: members[i].key@, value: members[i].value@ }
                        } else {
                            MemberModel { key: Seq::<char>::empty(), value: JsonModel::Null }
                        },
                ),
            ),
        }
    }
}

/// The members `members` without those whose key is one of `fields`, each with its value
/// cleared of `fields` in turn.
pub open spec fn members_without(members: Seq<MemberModel>, fields: Seq<Seq<char>>) -> Seq<
    MemberModel,
>
    decreases members, 0nat,
{
    if members.len() == 0 {
        Seq::<MemberModel>::empty()
    } else {
        let before = members_without(members.drop_last(), fields);
        if fields.contains(members.last().key) {
            before
        } else {
            before.push(
                MemberModel {
                    key: members.last().key,
                    value: without_fields(members.last().value, fields),
                },
            )
        }
    }
}

/// The items `items`, each cleared of `fields`.
pub open spec fn items_without(items: Seq<JsonModel>, fields: Seq<Seq<char>>) -> Seq<JsonModel>
    decreases items, 0nat,
{
    if items.len() == 0 {
        Seq::<JsonModel>::empty()
    } else {
        items_without(items.drop_last(), fields).push(without_fields(items.last(), fields))
    }
}

/// `value` without the members of its objects, at every depth, whose key is one of
/// `fields`. What remains keeps its order.
pub open spec fn without_fields(value: JsonModel, fields: Seq<Seq<char>>) -> JsonModel
    decreases value, 1nat,
{
    match value {
        JsonModel::Array(items) => JsonModel::Array(items_without(items, fields)),
        JsonModel::Object(members) => JsonModel::Object(members_without(members, fields)),
        other => other,
    }
}

/// Takes the fields `fields` out of `value` at every depth.
pub fn remove_fields(value: &Json, fields: &Vec<String>) -> (r: Json)
    ensures
        r@ == without_fields(value@, texts(fields@)),
    decreases value,
{
    match value {
        Json::Null => Json::Null,
        Json::Bool(b) => Json::Bool(*b),
        Json::Number(n) => Json::Number(n.clone()),
        Json::Text(t) => Json::Text(t.clone()),
        Json::Array(items) => {
            let mut out: Vec<Json> = Vec::new();
            let ghost all = value@->Array_0;
            let mut i: usize = 0;
            assert(all.take(0) =~= Seq::<JsonModel>::empty());
            while i < items.len()
                invariant
                    i <= items.len(),
                    *value == Json::Array(*items),
                    all == value@->Array_0,
                    all.len() == items.len(),
                    forall|k: int| 0 <= k < items.len() ==> all[k] == (#[trigger] items[k])@,
                    Seq::new(out.len() as nat, |k: int| out[k]@) == items_without(
                        all.take(i as int),
                        texts(fields@),
                    ),
                decreases items.len() - i,
            {
                proof {
                    assert(all.take(i + 1).drop_last() =~= all.take(i as int));
                    assert(all.take(i + 1).last() == all[i as int]);
                }
                let ghost before = Seq::new(out.len() as nat, |k: int| out[k]@);
                let item = remove_fields(&items[i], fields);
                out.push(item);
                assert(Seq::new(out.len() as nat, |k: int| out[k]@) =~= before.push(item@));
                i += 1;
            }
            assert(all.take(items.len() as int) =~= all);
            let r = Json::Array(out);
            assert(r@->Array_0 =~= Seq::new(out.len() as nat, |k: int| out[k]@));
            r
        },
        Json::Object(members) => {
            let mut out: Vec<Member> = Vec::new();
            let ghost all = value@->Object_0;
            let mut i: usize = 0;
            assert(all.take(0) =~= Seq::<MemberModel>::empty());
            while i < members.len()
                invariant
                    i <= members.len(),
                    *value == Json::Object(*members),
                    all == value@->Object_0,
                    all.len() == members.len(),
                    forall|k: int|
                        0 <= k < members.len() ==> all[k] == (MemberModel {
                            key: (#[trigger] members[k]).key@,
                            value: members[k].value@,
                        }),
                    Seq::new(
                        out.len() as nat,
                        |k: int| MemberModel { key: out[k].key@, value: out[k].value@ },
                    ) == members_without(all.take(i as int), texts(fields@)),
                decreases members.len() - i,
            {
                proof {
                    assert(all.take(i + 1).drop_last() =~= all.take(i as int));
                    assert(all.take(i + 1).last() == all[i as int]);
                }
                let ghost before = Seq::new(
                    out.len() as nat,
                    |k: int| MemberModel { key: out[k].key@, value: out[k].value@ },
                );
                if !texts_contain(fields, members[i].key.as_str()) {
                    let kept = remove_fields(&members[i].value, fields);
                    let key = members[i].key.clone();
                    out.push(Member { key, value: kept });
                    assert(Seq::new(
                        out.len() as nat,
                        |k: int| MemberModel { key: out[k].key@, value: out[k].value@ },
                    ) =~= before.push(MemberModel { key: key@, value: kept@ }));
                }
                i += 1;
            }
            assert(all.take(members.len() as int) =~= all);
            let r = Json::Object(out);
            assert(r@->Object_0 =~= Seq::new(
                out.len() as nat,
                |k: int| MemberModel { key: out[k].key@, value: out[k].value@ },
            ));
            r
        },
    }
}

} // verus!
