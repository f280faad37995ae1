//! JSON values, as `serde_json` holds them.
//!
//! A `serde_json::Value` is opaque to the verifier. `JsonTree` is the
//! mathematical value that one stands for, and every function here says what
//! it does in terms of that tree. No function of this file is proved: each
//! is a single call into `serde_json` or `base64`, and its contract repeats
//! what that crate documents.

use vstd::prelude::*;
use crate::text::signed_decimal_text;

verus! {

/// The JSON document that a value stands for.
pub enum JsonTree {
    /// `null`
    Null,
    /// `true` or `false`
    Bool(bool),
    /// A number, by the digits that `serde_json` writes for it.
    Number(Seq<char>),
    /// A string.
    Text(Seq<char>),
    /// An array, in order.
    List(Seq<JsonTree>),
    /// An object: each key once, with no order among the keys.
    Object(Map<Seq<char>, JsonTree>),
}

/// `serde_json::Value`, carried as it is: what one holds is told by
/// `value_tree`.
#[verifier::external_type_specification]
#[verifier::external_body]
pub struct ExValue(serde_json::Value);

/// `serde_json::Map`, carried as it is: what one holds is told by
/// `map_members`.
#[verifier::external_type_specification]
#[verifier::external_body]
#[verifier::reject_recursive_types(K)]
#[verifier::reject_recursive_types(V)]
pub struct ExMap<K, V>(serde_json::Map<K, V>);

/// The document that a `serde_json::Value` holds.
pub uninterp spec fn value_tree(v: serde_json::Value) -> JsonTree;

/// The members that a `serde_json::Map` holds.
pub uninterp spec fn map_members(m: serde_json::Map<String, serde_json::Value>) -> Map<
    Seq<char>,
    JsonTree,
>;

/// What `serde_json::from_str` makes of a text: the document it reads, or the
/// message of the error with which it refuses the text.
pub uninterp spec fn parse_outcome(text: Seq<char>) -> Result<JsonTree, Seq<char>>;

/// What `serde_json::to_string` makes of a document: its compact text, or the
/// message of the error with which it gives up. With the crate's default
/// features an object's members are kept and written in the order of their
/// keys, so the text depends on the document alone.
pub uninterp spec fn render_outcome(tree: JsonTree) -> Result<Seq<char>, Seq<char>>;

/// The members of an object without members.
pub open spec fn no_members() -> Map<Seq<char>, JsonTree> {
    Map::empty()
}

/// The trees of a list of values, in order.
pub open spec fn trees(items: Seq<serde_json::Value>) -> Seq<JsonTree> {
    items.map_values(|v: serde_json::Value| value_tree(v))
}

/// `serde_json::from_str` at type `Value`. The result is a function of the
/// text alone; an error is handed back as its message.
#[verifier::external_body]
pub(crate) fn parse(text: &str) -> (r: Result<serde_json::Value, String>)
    ensures
        match r {
            Ok(v) => parse_outcome(text@) == Ok::<JsonTree, Seq<char>>(value_tree(v)),
            Err(m) => parse_outcome(text@) == Err::<JsonTree, Seq<char>>(m@),
        },
{
    serde_json::from_str::<serde_json::Value>(text).map_err(|e| e.to_string())
}

/// `serde_json::to_string` on a `Value`. The result is a function of the
/// document alone; an error is handed back as its message.
#[verifier::external_body]
pub(crate) fn render(v: &serde_json::Value) -> (r: Result<String, String>)
    ensures
        match r {
            Ok(s) => render_outcome(value_tree(*v)) == Ok::<Seq<char>, Seq<char>>(s@),
            Err(m) => render_outcome(value_tree(*v)) == Err::<Seq<char>, Seq<char>>(m@),
        },
{
    serde_json::to_string(v).map_err(|e| e.to_string())
}

/// `Value::get` with a string key: the member of that name where the value
/// is an object that has one, else nothing.
#[verifier::external_body]
pub(crate) fn member<'a>(v: &'a serde_json::Value, key: &str) -> (r: Option<&'a serde_json::Value>)
    ensures
        match value_tree(*v) {
            JsonTree::Object(m) => if m.contains_key(key@) {
                r matches Some(x) && value_tree(*x) == m[key@]
            } else {
                r is None
            },
            _ => r is None,
        },
{
    v.get(key)
}

/// `Value::as_str`: the string where the value is one, else nothing.
#[verifier::external_body]
pub(crate) fn as_text<'a>(v: &'a serde_json::Value) -> (r: Option<&'a str>)
    ensures
        match value_tree(*v) {
            JsonTree::Text(s) => r matches Some(x) && x@ == s,
            _ => r is None,
        },
{
    v.as_str()
}

/// `Value::as_bool`: the boolean where the value is one, else nothing.
#[verifier::external_body]
pub(crate) fn as_flag(v: &serde_json::Value) -> (r: Option<bool>)
    ensures
        match value_tree(*v) {
            JsonTree::Bool(b) => r == Some(b),
            _ => r is None,
        },
{
    v.as_bool()
}

/// `Value::as_array`: the elements where the value is an array, else nothing.
#[verifier::external_body]
pub(crate) fn as_list<'a>(v: &'a serde_json::Value) -> (r: Option<&'a Vec<serde_json::Value>>)
    ensures
        match value_tree(*v) {
            JsonTree::List(items) => r matches Some(x) && trees(x@) == items,
            _ => r is None,
        },
{
    v.as_array()
}

/// `Value::is_null`.
#[verifier::external_body]
pub(crate) fn is_null(v: &serde_json::Value) -> (r: bool)
    ensures
        r == (value_tree(*v) is Null),
{
    v.is_null()
}

/// `Value::clone`: a value that holds the same document.
pub assume_specification[ <serde_json::Value as Clone>::clone ](v: &serde_json::Value) -> (r:
    serde_json::Value)
    ensures
        value_tree(r) == value_tree(*v),
;

/// The variant `Value::Null`.
#[verifier::external_body]
pub(crate) fn null() -> (r: serde_json::Value)
    ensures
        value_tree(r) == JsonTree::Null,
{
    serde_json::Value::Null
}

/// The variant `Value::Bool`.
#[verifier::external_body]
pub(crate) fn flag(b: bool) -> (r: serde_json::Value)
    ensures
        value_tree(r) == JsonTree::Bool(b),
{
    serde_json::Value::Bool(b)
}

/// The variant `Value::String`, holding a copy of the text.
#[verifier::external_body]
pub(crate) fn text(s: &str) -> (r: serde_json::Value)
    ensures
        value_tree(r) == JsonTree::Text(s@),
{
    serde_json::Value::String(s.to_owned())
}

/// The variant `Value::Array`, holding the items in their order.
#[verifier::external_body]
pub(crate) fn list(items: Vec<serde_json::Value>) -> (r: serde_json::Value)
    ensures
        value_tree(r) == JsonTree::List(trees(items@)),
{
    serde_json::Value::Array(items)
}

/// The variant `Value::Object`, holding the members of the map.
#[verifier::external_body]
pub(crate) fn object(members: serde_json::Map<String, serde_json::Value>) -> (r: serde_json::Value)
    ensures
        value_tree(r) == JsonTree::Object(map_members(members)),
{
    serde_json::Value::Object(members)
}

/// `Map::new`: a map without members.
#[verifier::external_body]
pub(crate) fn members_new() -> (r: serde_json::Map<String, serde_json::Value>)
    ensures
        map_members(r) == no_members(),
{
    serde_json::Map::new()
}

/// `Map::insert`: the member is added under the key, in place of one that
/// the map had under it.
#[verifier::external_body]
pub(crate) fn with_member(members: serde_json::Map<String, serde_json::Value>, key: &str, v: serde_json::Value) -> (r: serde_json::Map<String, serde_json::Value>)
    ensures
        map_members(r) == map_members(members).insert(key@, value_tree(v)),
{
    let mut members = members;
    members.insert(key.to_owned(), v);
    members
}

/// What `Value::as_i64` makes of a number, given by its digits: the number
/// where it is an integer that fits in 64 bits with a sign, else nothing.
pub uninterp spec fn number_as_i64(digits: Seq<char>) -> Option<i64>;

/// What the standard base64 engine, with padding, makes of bytes.
pub uninterp spec fn base64_standard(bytes: Seq<u8>) -> Seq<char>;

/// `Value::is_number`.
#[verifier::external_body]
pub(crate) fn is_number(v: &serde_json::Value) -> (r: bool)
    ensures
        r == (value_tree(*v) is Number),
{
    v.is_number()
}

/// `Value::as_i64`: nothing where the value is no number; for a number, a
/// function of the number alone.
#[verifier::external_body]
pub(crate) fn as_integer(v: &serde_json::Value) -> (r: Option<i64>)
    ensures
        match value_tree(*v) {
            JsonTree::Number(digits) => r == number_as_i64(digits),
            _ => r is None,
        },
{
    v.as_i64()
}

/// `Value::from` on an `i64`: the number, which `serde_json` writes in
/// decimal digits, with a minus sign where it is negative.
#[verifier::external_body]
pub(crate) fn integer(i: i64) -> (r: serde_json::Value)
    ensures
        value_tree(r) == JsonTree::Number(signed_decimal_text(i as int)),
{
    serde_json::Value::from(i)
}

/// `Engine::encode` of `base64`'s `STANDARD` engine. The result is a
/// function of the bytes alone. The engine gives up where the length of
/// its result does not fit in `usize`; the bound keeps well below that.
#[verifier::external_body]
pub(crate) fn base64_text(bytes: &Vec<u8>) -> (r: String)
    requires
        bytes@.len() < usize::MAX / 2,
    ensures
        r@ == base64_standard(bytes@),
{
    base64::Engine::encode(&base64::engine::general_purpose::STANDARD, bytes)
}

} // verus!
