//! JSON objects: building one member by member, and reading the members of
//! one that was parsed.

use crate::json::{
    distinct_keys, integer_value, json_of, jsons_of, members_of, object_value, text_value,
    value_integer, value_is_null, value_items, value_member, value_text, Json, Members,
};
use crate::text::texts_of;
use vstd::prelude::*;

verus! {

/// What reading one member of an object as a `T` gives.
pub enum Member<T> {
    /// The object has no such member, or the value is no object at all.
    Absent,
    /// The member is there and is `null`.
    Null,
    /// The member is there and is no `T`.
    Mismatch,
    /// The member is there and holds this.
    Held(T),
}

impl View for Member<String> {
    type V = Member<Seq<char>>;

    open spec fn view(&self) -> Member<Seq<char>> {
        match *self {
            Member::Absent => Member::Absent,
            Member::Null => Member::Null,
            Member::Mismatch => Member::Mismatch,
            Member::Held(text) => Member::Held(text@),
        }
    }
}

impl View for Member<Vec<String>> {
    type V = Member<Seq<Seq<char>>>;

    open spec fn view(&self) -> Member<Seq<Seq<char>>> {
        match *self {
            Member::Absent => Member::Absent,
            Member::Null => Member::Null,
            Member::Mismatch => Member::Mismatch,
            Member::Held(texts) => Member::Held(texts_of(texts@)),
        }
    }
}

impl<T> Member<T> {
    /// This member where leaving it out is allowed: a missing member and
    /// `null` both give `Some(None)`, a mismatch gives `None`.
    pub open spec fn optional(self) -> Option<Option<T>> {
        match self {
            Member::Absent => Some(None),
            Member::Null => Some(None),
            Member::Mismatch => None,
            Member::Held(held) => Some(Some(held)),
        }
    }
}

/// The member of `json` under `key`, where `json` is an object that has one.
pub open spec fn member_of(json: Json, key: Seq<char>) -> Option<Json> {
    match json {
        Json::Object(members) => if members.contains_key(key) {
            Some(members[key])
        } else {
            None
        },
        _ => None,
    }
}

/// Whether every element of `items` is a JSON string.
pub open spec fn all_text(items: Seq<Json>) -> bool {
    forall|i: int| 0 <= i < items.len() ==> (#[trigger] items[i]) is Text
}

/// The member of `json` under `key`, read as a string.
pub open spec fn text_member(json: Json, key: Seq<char>) -> Member<Seq<char>> {
    match member_of(json, key) {
        None => Member::Absent,
        Some(Json::Null) => Member::Null,
        Some(Json::Text(text)) => Member::Held(text),
        Some(_) => Member::Mismatch,
    }
}

/// The member of `json` under `key`, read as an integer of 64 bits.
pub open spec fn integer_member(json: Json, key: Seq<char>) -> Member<i64> {
    match member_of(json, key) {
        None => Member::Absent,
        Some(Json::Null) => Member::Null,
        Some(Json::Integer(number)) => if i64::MIN <= number <= i64::MAX {
            Member::Held(number as i64)
        } else {
            Member::Mismatch
        },
        Some(_) => Member::Mismatch,
    }
}

/// The member of `json` under `key`, read as an array of strings.
pub open spec fn texts_member(json: Json, key: Seq<char>) -> Member<Seq<Seq<char>>> {
    match member_of(json, key) {
        None => Member::Absent,
        Some(Json::Null) => Member::Null,
        Some(Json::Array(items)) => if all_text(items) {
            Member::Held(Seq::new(items.len(), |i: int| items[i]->Text_0))
        } else {
            Member::Mismatch
        },
        Some(_) => Member::Mismatch,
    }
}

/// Reads the member of `value` under `key` as a string.
pub fn read_text(value: &serde_json::Value, key: &str) -> (member: Member<String>)
    ensures
        member@ == text_member(json_of(*value), key@),
{
    match value_member(value, key) {
        None => Member::Absent,
        Some(found) => {
            if value_is_null(found) {
                Member::Null
            } else {
                match value_text(found) {
                    Some(text) => Member::Held(text.to_owned()),
                    None => Member::Mismatch,
                }
            }
        },
    }
}

/// Reads the member of `value` under `key` as an integer of 64 bits.
pub fn read_integer(value: &serde_json::Value, key: &str) -> (member: Member<i64>)
    ensures
        member == integer_member(json_of(*value), key@),
{
    match value_member(value, key) {
        None => Member::Absent,
        Some(found) => {
            if value_is_null(found) {
                Member::Null
            } else {
                match value_integer(found) {
                    Some(number) => Member::Held(number),
                    None => Member::Mismatch,
                }
            }
        },
    }
}

/// Reads the member of `value` under `key` as an array of strings.
pub fn read_texts(value: &serde_json::Value, key: &str) -> (member: Member<Vec<String>>)
    ensures
        member@ == texts_member(json_of(*value), key@),
{
    match value_member(value, key) {
        None => Member::Absent,
        Some(found) => {
            if value_is_null(found) {
                return Member::Null;
            }
            match value_items(found) {
                None => Member::Mismatch,
                Some(items) => {
                    let ghost jsons = jsons_of(items@);
                    let mut texts: Vec<String> = Vec::new();
                    let mut i: usize = 0;
                    while i < items.len()
                        invariant
                            i <= items.len(),
                            texts.len() == i,
                            jsons == jsons_of(items@),
                            forall|k: int|
                                0 <= k < i ==> #[trigger] jsons[k] == Json::Text(texts@[k]@),
                            json_of(*found) == Json::Array(jsons),
                            member_of(json_of(*value), key@) == Some(json_of(*found)),
                        decreases items.len() - i,
                    {
                        match value_text(&items[i]) {
                            None => {
                                assert(!(jsons[i as int] is Text));
                                return Member::Mismatch;
                            },
                            Some(text) => {
                                texts.push(text.to_owned());
                            },
                        }
                        i += 1;
                    }
                    assert(texts_of(texts@) =~= Seq::new(jsons.len(), |i: int| jsons[i]->Text_0));
                    Member::Held(texts)
                },
            }
        },
    }
}

/// A JSON object in the making. No key is given twice.
pub(crate) struct ObjectBuilder {
    members: Vec<(String, serde_json::Value)>,
}

impl ObjectBuilder {
    /// The members given so far, by key.
    pub(crate) closed spec fn object(&self) -> Members {
        members_of(self.members@)
    }

    /// No key was given twice, and every key given is a key of the object.
    pub(crate) closed spec fn well_formed(&self) -> bool {
        &&& distinct_keys(self.members@)
        &&& forall|i: int|
            0 <= i < self.members@.len() ==> members_of(self.members@).contains_key(
                (#[trigger] self.members@[i]).0@,
            )
    }

    /// An object without members.
    pub(crate) fn new() -> (builder: ObjectBuilder)
        ensures
            builder.well_formed(),
            builder.object() == Map::<Seq<char>, Json>::empty(),
    {
        ObjectBuilder { members: Vec::new() }
    }

    fn push(&mut self, key: &str, value: serde_json::Value)
        requires
            old(self).well_formed(),
            !old(self).object().contains_key(key@),
        ensures
            final(self).well_formed(),
            final(self).object() == old(self).object().insert(key@, json_of(value)),
    {
        let ghost before = self.members@;
        self.members.push((key.to_owned(), value));
        proof {
            assert(self.members@.drop_last() =~= before);
        }
    }

    /// Adds a member that is a string. The key is new to the object.
    pub(crate) fn text(&mut self, key: &str, text: &str)
        requires
            old(self).well_formed(),
            !old(self).object().contains_key(key@),
        ensures
            final(self).well_formed(),
            final(self).object() == old(self).object().insert(key@, Json::Text(text@)),
    {
        self.push(key, text_value(text));
    }

    /// Adds a member that is an integer. The key is new to the object.
    pub(crate) fn integer(&mut self, key: &str, number: i64)
        requires
            old(self).well_formed(),
            !old(self).object().contains_key(key@),
        ensures
            final(self).well_formed(),
            final(self).object() == old(self).object().insert(key@, Json::Integer(number as int)),
    {
        self.push(key, integer_value(number));
    }

    /// The object as a JSON value.
    pub(crate) fn finish(self) -> (value: serde_json::Value)
        requires
            self.well_formed(),
        ensures
            json_of(value) == Json::Object(self.object()),
    {
        object_value(self.members)
    }
}

} // verus!
