//! Stored records and their JSON form.
//!
//! The store describes a record as a JSON object with the members `Key` (a
//! string that is not empty), `CreateIndex` (a non-negative integer below
//! 2^64) and `Value` (a string, `null`, or left out). Other members are passed
//! over.

use crate::json::{member, tree_of, trees_of, JsonNumber, JsonTree};
use vstd::prelude::*;

verus! {

/// One record of the store.
#[derive(Clone, Debug, PartialEq, Eq)]
pub struct KVPair {
    /// The name under which the record is stored.
    pub key: String,
    /// The store's revision at which the record was created.
    pub create_index: u64,
    /// What is stored; `None` where the store holds no value.
    pub value: Option<String>,
}

/// The model of a [`KVPair`].
pub struct KVPairView {
    pub key: Seq<char>,
    pub create_index: u64,
    pub value: Option<Seq<char>>,
}

impl KVPairView {
    /// A record has a key: one that is not empty.
    pub open spec fn well_formed(self) -> bool {
        self.key.len() > 0
    }
}

impl View for KVPair {
    type V = KVPairView;

    open spec fn view(&self) -> KVPairView {
        KVPairView {
            key: self.key@,
            create_index: self.create_index,
            value: match self.value {
                Some(text) => Some(text@),
                None => None,
            },
        }
    }
}

/// The models of a sequence of records.
pub open spec fn views(pairs: Seq<KVPair>) -> Seq<KVPairView> {
    pairs.map_values(|pair: KVPair| pair@)
}

/// The `Value` member of a JSON object that describes a record: `Some(None)`
/// where it is left out or `null`, the text where it is a string, and `None`
/// where it is anything else.
pub open spec fn value_member(tree: JsonTree) -> Option<Option<Seq<char>>> {
    match tree.member("Value"@) {
        None => Some(None),
        Some(JsonTree::Null) => Some(None),
        Some(JsonTree::Text(chars)) => Some(Some(chars)),
        Some(_) => None,
    }
}

/// The record that a JSON tree describes; `None` where it describes none.
pub open spec fn record_of(tree: JsonTree) -> Option<KVPairView> {
    match (tree.member("Key"@), tree.member("CreateIndex"@), value_member(tree)) {
        (
            Some(JsonTree::Text(key)),
            Some(JsonTree::Number(JsonNumber::Unsigned(create_index))),
            Some(value),
        ) => if key.len() > 0 {
            Some(KVPairView { key, create_index, value })
        } else {
            None
        },
        _ => None,
    }
}

/// The records that a JSON tree lists, in its order; `None` unless the tree is
/// a list and each of its items describes a record.
pub open spec fn records_of(tree: JsonTree) -> Option<Seq<KVPairView>> {
    match tree {
        JsonTree::List(items) => if forall|i: int|
            0 <= i < items.len() ==> (#[trigger] record_of(items[i])) is Some {
            Some(items.map_values(|item: JsonTree| record_of(item).unwrap()))
        } else {
            None
        },
        _ => None,
    }
}

/// Every record that a JSON tree describes or lists is well formed.
pub proof fn lemma_decoded_records_are_well_formed(tree: JsonTree)
    ensures
        record_of(tree) matches Some(record) ==> record.well_formed(),
        records_of(tree) matches Some(records) ==> forall|i: int|
            0 <= i < records.len() ==> (#[trigger] records[i]).well_formed(),
{
    if let Some(records) = records_of(tree) {
        let items = tree->List_0;
        assert forall|i: int| 0 <= i < records.len() implies (#[trigger] records[i]).well_formed(
        ) by {
            assert(record_of(items[i]) is Some);
        }
    }
}

/// Reads one record from its JSON form.
pub fn decode_record(item: &serde_json::Value) -> (r: Option<KVPair>)
    ensures
        match record_of(tree_of(*item)) {
            Some(record) => r matches Some(pair) && pair@ == record,
            None => r is None,
        },
{
    let key: String = match member(item, "Key") {
        Some(found) => match found.as_str() {
            Some(text) => if text.is_empty() {
                return None;
            } else {
                text.to_owned()
            },
            None => { return None; },
        },
        None => { return None; },
    };
    let create_index: u64 = match member(item, "CreateIndex") {
        Some(found) => match found.as_u64() {
            Some(n) => n,
            None => { return None; },
        },
        None => { return None; },
    };
    let value: Option<String> = match member(item, "Value") {
        Some(found) => match found.as_str() {
            Some(text) => Some(text.to_owned()),
            None => if found.is_null() {
                None
            } else {
                return None;
            },
        },
        None => None,
    };
    Some(KVPair { key, create_index, value })
}

/// Reads a list of records from its JSON form: all of them, or none.
pub fn decode_records(doc: &serde_json::Value) -> (r: Option<Vec<KVPair>>)
    ensures
        match records_of(tree_of(*doc)) {
            Some(records) => r matches Some(pairs) && views(pairs@) == records,
            None => r is None,
        },
{
    let items: &Vec<serde_json::Value> = match doc.as_array() {
        Some(found) => found,
        None => { return None; },
    };
    let ghost trees: Seq<JsonTree> = tree_of(*doc)->List_0;
    let mut pairs: Vec<KVPair> = Vec::new();
    let mut i: usize = 0;
    while i < items.len()
        invariant
            i <= items.len(),
            tree_of(*doc) == JsonTree::List(trees),
            trees_of(items@) == trees,
            pairs@.len() == i,
            forall|j: int| 0 <= j < i ==> (#[trigger] record_of(trees[j])) == Some(pairs@[j]@),
        decreases items.len() - i,
    {
        assert(tree_of(items@[i as int]) == trees[i as int]);
        match decode_record(&items[i]) {
            Some(pair) => {
                pairs.push(pair);
            },
            None => {
                return None;
            },
        }
        i = i + 1;
    }
    assert(views(pairs@) =~= trees.map_values(|item: JsonTree| record_of(item).unwrap()));
    Some(pairs)
}

} // verus!
