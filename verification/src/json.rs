//! JSON documents, read by `serde_json`.
//!
//! A document is held as a `serde_json::Value`, which stays opaque here. What
//! it holds is spoken of through [`tree_of`], its mathematical model, and the
//! few `serde_json` functions that the crate calls are described over that
//! model. None of those descriptions is proved: they restate `serde_json`'s
//! source.

use vstd::prelude::*;

verus! {

/// `serde_json::Value`, a JSON document in memory.
#[verifier::external_type_specification]
#[verifier::external_body]
pub struct ExValue(serde_json::Value);

/// `serde_json::Error`, the reason for which a text is no JSON document.
#[verifier::external_type_specification]
#[verifier::external_body]
pub struct ExError(serde_json::Error);

/// A JSON number, as far as its value is read here.
pub enum JsonNumber {
    /// A non-negative integer below 2^64.
    Unsigned(u64),
    /// Any other number: a negative integer, an integer of 2^64 or above, or a
    /// number with a fraction or an exponent.
    Other,
}

/// The model of a JSON document.
pub enum JsonTree {
    Null,
    Bool(bool),
    Number(JsonNumber),
    Text(Seq<char>),
    List(Seq<JsonTree>),
    Record(Map<Seq<char>, JsonTree>),
}

impl JsonTree {
    /// The member `name` of a record; `None` where the tree is no record or
    /// has no such member.
    pub open spec fn member(self, name: Seq<char>) -> Option<JsonTree> {
        match self {
            JsonTree::Record(members) => if members.contains_key(name) {
                Some(members[name])
            } else {
                None
            },
            _ => None,
        }
    }

    /// The items of a list; `None` where the tree is no list.
    pub open spec fn items(self) -> Option<Seq<JsonTree>> {
        match self {
            JsonTree::List(items) => Some(items),
            _ => None,
        }
    }

    /// The characters of a string; `None` where the tree is no string.
    pub open spec fn text(self) -> Option<Seq<char>> {
        match self {
            JsonTree::Text(chars) => Some(chars),
            _ => None,
        }
    }

    /// The value of a number that is a non-negative integer below 2^64; `None`
    /// for any other tree.
    pub open spec fn unsigned(self) -> Option<u64> {
        match self {
            JsonTree::Number(JsonNumber::Unsigned(n)) => Some(n),
            _ => None,
        }
    }
}

/// What a `serde_json::Value` holds.
pub uninterp spec fn tree_of(v: serde_json::Value) -> JsonTree;

/// What `std::error::Error::description` says of a `serde_json::Error`.
pub uninterp spec fn description_of(e: serde_json::Error) -> Seq<char>;

/// What `serde_json::from_str` makes of a text: the document that the text
/// denotes, or the description of the error that it gives.
pub uninterp spec fn parsed(text: Seq<char>) -> Result<JsonTree, Seq<char>>;

/// The models of a sequence of values.
pub open spec fn trees_of(values: Seq<serde_json::Value>) -> Seq<JsonTree> {
    values.map_values(|v: serde_json::Value| tree_of(v))
}

/// `serde_json::from_str`, at the type `serde_json::Value`. The result is a
/// function of the text alone: [`parsed`] names the tree of the value that
/// comes back, or the description of the error.
#[verifier::external_body]
fn from_text(text: &str) -> (r: Result<serde_json::Value, serde_json::Error>)
    ensures
        match r {
            Ok(v) => parsed(text@) == Ok::<JsonTree, Seq<char>>(tree_of(v)),
            Err(e) => parsed(text@) == Err::<JsonTree, Seq<char>>(description_of(e)),
        },
{
    serde_json::from_str::<serde_json::Value>(text)
}

/// `std::error::Error::description`, on a `serde_json::Error`: the text is a
/// function of the error alone.
#[allow(deprecated)]
#[verifier::external_body]
fn describe(e: &serde_json::Error) -> (r: String)
    ensures
        r@ == description_of(*e),
{
    std::error::Error::description(e).to_owned()
}

/// `serde_json::Value::get`, with a string as the index: the member of that
/// name where the value is an object that has one, else `None`.
#[verifier::external_body]
pub(crate) fn member<'a>(v: &'a serde_json::Value, name: &str) -> (r: Option<&'a serde_json::Value>)
    ensures
        match tree_of(*v).member(name@) {
            Some(t) => r matches Some(found) && tree_of(*found) == t,
            None => r is None,
        },
{
    v.get(name)
}

/// `serde_json::Value::as_array`: the items where the value is an array, else
/// `None`.
pub assume_specification<'a>[ serde_json::Value::as_array ](v: &'a serde_json::Value) -> (r: Option<
    &'a Vec<serde_json::Value>,
>)
    ensures
        match tree_of(*v).items() {
            Some(items) => r matches Some(found) && trees_of(found@) == items,
            None => r is None,
        },
;

/// `serde_json::Value::as_str`: the characters where the value is a string,
/// else `None`.
pub assume_specification<'a>[ serde_json::Value::as_str ](v: &'a serde_json::Value) -> (r: Option<
    &'a str,
>)
    ensures
        match tree_of(*v).text() {
            Some(chars) => r matches Some(found) && found@ == chars,
            None => r is None,
        },
;

/// `serde_json::Value::as_u64`: the number where the value is a non-negative
/// integer below 2^64, else `None`.
pub assume_specification[ serde_json::Value::as_u64 ](v: &serde_json::Value) -> (r: Option<u64>)
    ensures
        r == tree_of(*v).unsigned(),
;

/// `serde_json::Value::is_null`: whether the value is `null`.
pub assume_specification[ serde_json::Value::is_null ](v: &serde_json::Value) -> (r: bool)
    ensures
        r == (tree_of(*v) is Null),
;

/// Reads `text` as a JSON document. Where it is none, the error holds the
/// description that `serde_json` gives of the failure.
pub fn parse(text: &str) -> (r: Result<serde_json::Value, String>)
    ensures
        match parsed(text@) {
            Ok(tree) => r matches Ok(v) && tree_of(v) == tree,
            Err(reason) => r matches Err(e) && e@ == reason,
        },
{
    match from_text(text) {
        Ok(v) => Ok(v),
        Err(e) => Err(describe(&e)),
    }
}

} // verus!
