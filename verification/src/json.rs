//! The boundary with `serde_json`: what a JSON value holds, and the calls
//! that build, print, parse and read one.
//!
//! Nothing in this file is proved. Each function marked `external_body`
//! makes one call into `serde_json`, and its contract is what Verus is told
//! to believe of that call. The rest of the library is verified against
//! these contracts.
//!
//! The contracts hold of `serde_json` with its default features, where an
//! object keeps one member per key, sorted by key, and a number is an
//! integer of 64 bits or a float.

use vstd::prelude::*;

verus! {

/// What a JSON value holds. This is the model that the contracts speak of;
/// no value of it exists when the program runs.
pub enum Json {
    Null,
    Bool(bool),
    /// A number held as an integer.
    Integer(int),
    /// A number held in binary floating point, given by its 64 bits.
    Fraction(u64),
    Text(Seq<char>),
    Array(Seq<Json>),
    /// An object, by its members.
    Object(Map<Seq<char>, Json>),
}

/// The members of a JSON object, by key.
pub type Members = Map<Seq<char>, Json>;

/// Makes `serde_json::Value` known to the verifier, as a type it cannot
/// look into.
#[verifier::external_type_specification]
#[verifier::external_body]
pub struct ExValue(serde_json::Value);

/// Makes `serde_json::Error` known to the verifier, as a type it cannot
/// look into.
#[verifier::external_type_specification]
#[verifier::external_body]
pub struct ExError(serde_json::Error);

/// What a `serde_json::Value` holds.
pub uninterp spec fn json_of(value: serde_json::Value) -> Json;

/// The text that `serde_json::to_string` prints for a value that holds
/// `json`, or `None` where it fails.
pub uninterp spec fn json_rendered(json: Json) -> Option<Seq<char>>;

/// What `serde_json::from_str` reads from `text`, or `None` where it fails.
pub uninterp spec fn json_parsed(text: Seq<char>) -> Option<Json>;

/// What each value of `values` holds, in the same order.
pub open spec fn jsons_of(values: Seq<serde_json::Value>) -> Seq<Json> {
    Seq::new(values.len(), |i: int| json_of(values[i]))
}

/// No two of `members` share a key.
pub open spec fn distinct_keys(members: Seq<(String, serde_json::Value)>) -> bool {
    forall|i: int, j: int|
        0 <= i < j < members.len() ==> (#[trigger] members[i]).0@ != (#[trigger] members[j]).0@
}

/// The object that has exactly `members`.
pub open spec fn members_of(members: Seq<(String, serde_json::Value)>) -> Members
    decreases members.len(),
{
    if members.len() == 0 {
        Map::empty()
    } else {
        members_of(members.drop_last()).insert(members.last().0@, json_of(members.last().1))
    }
}

/// Calls `serde_json::Value::from` on a string slice. Believed: the result
/// is a JSON string with the characters of `text`.
#[verifier::external_body]
pub(crate) fn text_value(text: &str) -> (value: serde_json::Value)
    ensures
        json_of(value) == Json::Text(text@),
{
    serde_json::Value::from(text)
}

/// Calls `serde_json::Value::from` on an `i64`. Believed: the result is a
/// JSON number that is this integer.
#[verifier::external_body]
pub(crate) fn integer_value(number: i64) -> (value: serde_json::Value)
    ensures
        json_of(value) == Json::Integer(number as int),
{
    serde_json::Value::from(number)
}

/// Collects pairs of key and value with `serde_json::Value::from_iter`.
/// Believed: where no key comes twice, the result is a JSON object whose
/// members are exactly the pairs. Nothing is claimed where a key comes
/// twice.
#[verifier::external_body]
pub(crate) fn object_value(members: Vec<(String, serde_json::Value)>) -> (value: serde_json::Value)
    ensures
        distinct_keys(members@) ==> json_of(value) == Json::Object(members_of(members@)),
{
    members.into_iter().collect::<serde_json::Value>()
}

/// Calls `serde_json::to_string` on a value. Believed: whether it succeeds,
/// and the text it gives, depend on nothing but what the value holds. The
/// text itself is not stated; it goes by the name `json_rendered`.
#[verifier::external_body]
pub(crate) fn render_value(value: &serde_json::Value) -> (text: Result<
    String,
    serde_json::Error,
>)
    ensures
        match text {
            Ok(t) => json_rendered(json_of(*value)) == Some(t@),
            Err(_) => json_rendered(json_of(*value)) is None,
        },
{
    serde_json::to_string(value)
}

/// Calls `serde_json::from_str` for a `serde_json::Value`. Believed: whether
/// it succeeds, and what the value holds, depend on nothing but `text`. What
/// it holds is not stated; it goes by the name `json_parsed`.
#[verifier::external_body]
pub(crate) fn parse_value(text: &str) -> (value: Result<serde_json::Value, serde_json::Error>)
    ensures
        match value {
            Ok(v) => json_parsed(text@) == Some(json_of(v)),
            Err(_) => json_parsed(text@) is None,
        },
{
    serde_json::from_str::<serde_json::Value>(text)
}

/// Calls `serde_json::Value::get` with a string. Believed: it gives the
/// member under `key` where `value` is an object that has one, and `None`
/// for an object without it and for any value that is no object.
#[verifier::external_body]
pub(crate) fn value_member<'a>(value: &'a serde_json::Value, key: &str) -> (member: Option<
    &'a serde_json::Value,
>)
    ensures
        match member {
            Some(m) => json_of(*value) matches Json::Object(o) && o.contains_key(key@) && json_of(
                *m,
            ) == o[key@],
            None => !(json_of(*value) matches Json::Object(o) && o.contains_key(key@)),
        },
{
    value.get(key)
}

/// Calls `serde_json::Value::as_str`. Believed: it gives the characters of
/// a JSON string, and `None` for any other value.
#[verifier::external_body]
pub(crate) fn value_text<'a>(value: &'a serde_json::Value) -> (text: Option<&'a str>)
    ensures
        match text {
            Some(t) => json_of(*value) == Json::Text(t@),
            None => !(json_of(*value) is Text),
        },
{
    value.as_str()
}

/// Calls `serde_json::Value::as_i64`. Believed: it gives the number where
/// `value` is an integer that fits an `i64`, and `None` for any other
/// value, a larger integer and a float among them.
#[verifier::external_body]
pub(crate) fn value_integer(value: &serde_json::Value) -> (number: Option<i64>)
    ensures
        match number {
            Some(n) => json_of(*value) == Json::Integer(n as int),
            None => !(json_of(*value) matches Json::Integer(n) && i64::MIN <= n <= i64::MAX),
        },
{
    value.as_i64()
}

/// Calls `serde_json::Value::as_array`. Believed: it gives the elements of
/// a JSON array, in their order, and `None` for any other value.
#[verifier::external_body]
pub(crate) fn value_items<'a>(value: &'a serde_json::Value) -> (items: Option<
    &'a Vec<serde_json::Value>,
>)
    ensures
        match items {
            Some(v) => json_of(*value) == Json::Array(jsons_of(v@)),
            None => !(json_of(*value) is Array),
        },
{
    value.as_array()
}

/// Calls `serde_json::Value::is_null`. Believed: it tells whether `value` is
/// the JSON `null`.
#[verifier::external_body]
pub(crate) fn value_is_null(value: &serde_json::Value) -> (null: bool)
    ensures
        null == (json_of(*value) is Null),
{
    value.is_null()
}

/// The message that a `serde_json::Error` displays, by its `to_string`.
/// Nothing is claimed of the text.
#[verifier::external_body]
pub(crate) fn error_text(error: &serde_json::Error) -> String {
    error.to_string()
}

} // verus!
