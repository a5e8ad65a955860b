//! JSON values as far as this library reads them: the text of a value,
//! and the fields of an object. The values themselves belong to
//! `serde_json`; what is said of them here is believed, not proved.

use crate::bag::bag_entries;
use crate::bag::bag_insert;
use crate::bag::bag_new;
use crate::bag::entry_views;
use crate::bag::no_entries;
use crate::bag::Entry;
use pilota::AHashMap;
use pilota::FastStr;
use serde_json::Value;
use vstd::prelude::*;

verus! {

/// `serde_json::Value`, a JSON value.
#[verifier::external_type_specification]
#[verifier::external_body]
pub struct ExValue(Value);

/// The JSON text of a value, as `serde_json` writes it on one line.
pub uninterp spec fn json_text(value: Value) -> Seq<char>;

/// The fields of a JSON object, each name with the JSON text of its
/// value, in the order in which `serde_json` keeps them; nothing for a
/// value that is no object.
pub uninterp spec fn json_fields(value: Value) -> Seq<Entry>;

/// The `Display` of `serde_json::Value`: the value as JSON text. The text
/// depends on the value alone.
#[verifier::external_body]
pub(crate) fn json_string(value: &Value) -> (r: String)
    ensures
        r@ == json_text(*value),
{
    value.to_string()
}

/// `Value::as_object` and the iterator of `serde_json::Map`: the fields
/// of an object, each name with the JSON text of its value; nothing for
/// a value that is no object. What comes out depends on the value alone.
#[verifier::external_body]
pub(crate) fn json_field_list(value: &Value) -> (items: Vec<(String, String)>)
    ensures
        entry_views(items@) == json_fields(*value),
{
    value.as_object().map(
        |fields| fields.iter().map(|(k, v)| (k.clone(), v.to_string())).collect(),
    ).unwrap_or_default()
}

/// The JSON text of each value, in the same order.
pub open spec fn json_views(items: Seq<Value>) -> Seq<Seq<char>> {
    Seq::new(items.len(), |i: int| json_text(items[i]))
}

/// The map that holds each entry under its key; of two entries with one
/// key the later one.
pub open spec fn entries_map(entries: Seq<Entry>) -> Map<Seq<char>, Seq<char>>
    decreases entries.len(),
{
    if entries.len() == 0 {
        no_entries()
    } else {
        entries_map(entries.drop_last()).insert(entries.last().0, entries.last().1)
    }
}

/// What the extra fields of a record hold: each field of the JSON object
/// with the JSON text of its value; nothing where there is no value, or
/// a value that is no object.
pub open spec fn fields_map(extra: Option<Value>) -> Map<Seq<char>, Seq<char>> {
    match extra {
        Some(value) => entries_map(json_fields(value)),
        None => no_entries(),
    }
}

/// The extra fields of a record as a property bag.
pub fn extra_to_outer(extra: Option<Value>) -> (r: AHashMap<FastStr, FastStr>)
    ensures
        bag_entries(r) == fields_map(extra),
{
    let mut map = bag_new();
    match extra {
        Some(info) => {
            let items = json_field_list(&info);
            let ghost entries = entry_views(items@);
            let mut i: usize = 0;
            while i < items.len()
                invariant
                    i <= items.len(),
                    entries == entry_views(items@),
                    bag_entries(map) == entries_map(entries.take(i as int)),
                decreases items.len() - i,
            {
                proof {
                    assert(entries.take(i + 1).drop_last() =~= entries.take(i as int));
                }
                bag_insert(&mut map, items[i].0.as_str(), items[i].1.as_str());
                i = i + 1;
            }
            assert(entries.take(i as int) =~= entries);
            map
        },
        None => map,
    }
}

} // verus!
