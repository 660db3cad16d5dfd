//! What the store's replies mean.
//!
//! A reply is what sending a request gave: the body of the store's answer, or
//! the text of a transport failure. A transport failure is handed on as it
//! is. For a body, each function here is the counterpart of one or two
//! methods of [`crate::keystore::Keystore`].

use crate::json::{member, parse, parsed, tree_of, trees_of, JsonTree};
use crate::record::{decode_records, record_of, records_of, views, KVPair, KVPairView};
use vstd::prelude::*;

verus! {

/// The error text for a JSON document that is not of the shape that the reply
/// to a request has: no list, or a list of something else than records.
pub open spec fn malformed() -> Seq<char> {
    "JSON error"@
}

/// The model of an optional text.
pub open spec fn text_view(text: Option<String>) -> Option<Seq<char>> {
    match text {
        Some(chars) => Some(chars@),
        None => None,
    }
}

/// The model of an optional record.
pub open spec fn pair_view(pair: Option<KVPair>) -> Option<KVPairView> {
    match pair {
        Some(found) => Some(found@),
        None => None,
    }
}

/// Whether a JSON tree is a list with at least one item.
pub open spec fn has_first(tree: JsonTree) -> bool {
    tree matches JsonTree::List(items) && items.len() > 0
}

/// The text of the `Value` member of a list's first item; `None` where that
/// item has no such member, or one that is no string.
pub open spec fn first_value(tree: JsonTree) -> Option<Seq<char>>
    recommends
        has_first(tree),
{
    match tree->List_0[0].member("Value"@) {
        Some(JsonTree::Text(chars)) => Some(chars),
        _ => None,
    }
}

/// The first of a sequence of records, if there is one.
pub open spec fn first_record(records: Seq<KVPairView>) -> Option<KVPairView> {
    if records.len() > 0 {
        Some(records[0])
    } else {
        None
    }
}

/// Where a document lists records and at least one of them, the value that
/// [`key_value`] reads is the value of the record that [`kv_pair`] reads.
pub proof fn lemma_first_value_is_value_of_first_record(tree: JsonTree)
    requires
        records_of(tree) is Some,
        has_first(tree),
    ensures
        first_record(records_of(tree).unwrap()) matches Some(record) && record.value
            == first_value(tree),
{
    let items = tree->List_0;
    assert(record_of(items[0]) is Some);
}

/// The reply to [`set_key`](crate::keystore::Keystore::set_key): the value is
/// stored if the request went through. The body is not read.
pub fn stored(reply: Result<String, String>) -> (r: Result<(), String>)
    ensures
        match reply {
            Ok(_) => r is Ok,
            Err(failure) => r == Err::<(), String>(failure),
        },
{
    match reply {
        Ok(_) => Ok(()),
        Err(failure) => Err(failure),
    }
}

/// The reply to [`acquire_lock`](crate::keystore::Keystore::acquire_lock) and
/// to [`release_lock`](crate::keystore::Keystore::release_lock): the lock
/// changed hands if and only if the body is exactly `true`.
pub fn lock_changed(reply: Result<String, String>) -> (r: Result<bool, String>)
    ensures
        match reply {
            Ok(body) => r == Ok::<bool, String>(body@ == "true"@),
            Err(failure) => r == Err::<bool, String>(failure),
        },
{
    match reply {
        Ok(body) => Ok(body == "true".to_owned()),
        Err(failure) => Err(failure),
    }
}

/// What the body of a reply to a lock request says.
#[derive(Clone, Copy, Debug, PartialEq, Eq, Structural)]
pub enum LockAnswer {
    /// `true`: the lock changed hands.
    Changed,
    /// `false`: the store refused, as it does while another session holds the
    /// lock.
    Refused,
    /// Anything else, such as the text of an error: no answer at all.
    Unclear,
}

/// What a body says of a lock.
pub open spec fn lock_answer_of(body: Seq<char>) -> LockAnswer {
    if body == "true"@ {
        LockAnswer::Changed
    } else if body == "false"@ {
        LockAnswer::Refused
    } else {
        LockAnswer::Unclear
    }
}

/// The reply to [`acquire_lock`](crate::keystore::Keystore::acquire_lock) and
/// to [`release_lock`](crate::keystore::Keystore::release_lock), read more
/// closely than [`lock_changed`] does: a refusal is told apart from a body
/// that says neither `true` nor `false`.
pub fn lock_answer(reply: Result<String, String>) -> (r: Result<LockAnswer, String>)
    ensures
        match reply {
            Ok(body) => r == Ok::<LockAnswer, String>(lock_answer_of(body@)),
            Err(failure) => r == Err::<LockAnswer, String>(failure),
        },
{
    match reply {
        Ok(body) => if body == "true".to_owned() {
            Ok(LockAnswer::Changed)
        } else if body == "false".to_owned() {
            Ok(LockAnswer::Refused)
        } else {
            Ok(LockAnswer::Unclear)
        },
        Err(failure) => Err(failure),
    }
}

/// [`lock_changed`] says `true` on exactly the bodies on which [`lock_answer`]
/// says `Changed`.
pub proof fn lemma_changed_iff_exactly_true(body: Seq<char>)
    ensures
        (lock_answer_of(body) == LockAnswer::Changed) == (body == "true"@),
{
}

fn malformed_reply() -> (r: String)
    ensures
        r@ == malformed(),
{
    "JSON error".to_owned()
}

/// The value of the first record of a document that lists at least one.
pub fn value_of_first(doc: &serde_json::Value) -> (r: Option<String>)
    requires
        has_first(tree_of(*doc)),
    ensures
        text_view(r) == first_value(tree_of(*doc)),
{
    let items: &Vec<serde_json::Value> = match doc.as_array() {
        Some(found) => found,
        None => { return None; },
    };
    assert(trees_of(items@)[0] == tree_of(items@[0]));
    match member(&items[0], "Value") {
        Some(found) => match found.as_str() {
            Some(text) => Some(text.to_owned()),
            None => None,
        },
        None => None,
    }
}

/// The first record that a document lists, if it lists any.
pub fn record_of_first(doc: &serde_json::Value) -> (r: Result<Option<KVPair>, String>)
    ensures
        match records_of(tree_of(*doc)) {
            Some(records) => r matches Ok(pair) && pair_view(pair) == first_record(records),
            None => r matches Err(reason) && reason@ == malformed(),
        },
{
    match decode_records(doc) {
        Some(pairs) => {
            let mut pairs = pairs;
            if pairs.len() > 0 {
                Ok(Some(pairs.swap_remove(0)))
            } else {
                Ok(None)
            }
        },
        None => Err(malformed_reply()),
    }
}

/// All records that a document lists.
pub fn records_of_all(doc: &serde_json::Value) -> (r: Result<Option<Vec<KVPair>>, String>)
    ensures
        match records_of(tree_of(*doc)) {
            Some(records) => r matches Ok(Some(pairs)) && views(pairs@) == records,
            None => r matches Err(reason) && reason@ == malformed(),
        },
{
    match decode_records(doc) {
        Some(pairs) => Ok(Some(pairs)),
        None => Err(malformed_reply()),
    }
}

/// The reply to [`get_key`](crate::keystore::Keystore::get_key): the value of
/// the first item that the body lists. The result is `None` where the body is
/// an empty list, so that a missing key is not taken for a key without a
/// value. A body that is a JSON document but no list is an error, as it is
/// for [`kv_pair`] and [`kv_pairs`].
pub fn key_value(reply: Result<String, String>) -> (r: Option<Result<Option<String>, String>>)
    ensures
        match reply {
            Ok(body) => match parsed(body@) {
                Ok(tree) => match tree {
                    JsonTree::List(items) => if items.len() > 0 {
                        r matches Some(Ok(value)) && text_view(value) == first_value(tree)
                    } else {
                        r is None
                    },
                    _ => r matches Some(Err(reason)) && reason@ == malformed(),
                },
                Err(reason) => r matches Some(Err(failure)) && failure@ == reason,
            },
            Err(failure) => r == Some(Err::<Option<String>, String>(failure)),
        },
{
    match reply {
        Ok(body) => match parse(body.as_str()) {
            Ok(doc) => match doc.as_array() {
                Some(items) => if items.len() > 0 {
                    Some(Ok(value_of_first(&doc)))
                } else {
                    None
                },
                None => Some(Err(malformed_reply())),
            },
            Err(reason) => Some(Err(reason)),
        },
        Err(failure) => Some(Err(failure)),
    }
}

/// The reply to [`get_kvpair`](crate::keystore::Keystore::get_kvpair): the
/// first record that the body lists, or `None` where it lists none.
pub fn kv_pair(reply: Result<String, String>) -> (r: Result<Option<KVPair>, String>)
    ensures
        match reply {
            Ok(body) => match parsed(body@) {
                Ok(tree) => match records_of(tree) {
                    Some(records) => r matches Ok(pair) && pair_view(pair) == first_record(
                        records,
                    ),
                    None => r matches Err(reason) && reason@ == malformed(),
                },
                Err(reason) => r matches Err(failure) && failure@ == reason,
            },
            Err(failure) => r == Err::<Option<KVPair>, String>(failure),
        },
{
    match reply {
        Ok(body) => match parse(body.as_str()) {
            Ok(doc) => record_of_first(&doc),
            Err(reason) => Err(reason),
        },
        Err(failure) => Err(failure),
    }
}

/// The reply to [`list`](crate::keystore::Keystore::list): every record that
/// the body lists, in its order. A body that lists none gives an empty
/// vector, not `None`.
pub fn kv_pairs(reply: Result<String, String>) -> (r: Result<Option<Vec<KVPair>>, String>)
    ensures
        match reply {
            Ok(body) => match parsed(body@) {
                Ok(tree) => match records_of(tree) {
                    Some(records) => r matches Ok(Some(pairs)) && views(pairs@) == records,
                    None => r matches Err(reason) && reason@ == malformed(),
                },
                Err(reason) => r matches Err(failure) && failure@ == reason,
            },
            Err(failure) => r == Err::<Option<Vec<KVPair>>, String>(failure),
        },
{
    match reply {
        Ok(body) => match parse(body.as_str()) {
            Ok(doc) => records_of_all(&doc),
            Err(reason) => Err(reason),
        },
        Err(failure) => Err(failure),
    }
}

} // verus!
