//! The property bag: a hash map from text to text, attached to a node or
//! an edge. The map itself belongs to `ahash`; what this library knows of
//! it is stated here and believed, not proved.

use pilota::AHashMap;
use pilota::FastStr;
use vstd::prelude::*;

verus! {

/// `ahash::AHashMap`, a `std::collections::HashMap` with its own hasher.
#[verifier::external_type_specification]
#[verifier::external_body]
#[verifier::reject_recursive_types(K)]
#[verifier::reject_recursive_types(V)]
#[verifier::reject_recursive_types(S)]
pub struct ExAHashMap<K, V, S>(AHashMap<K, V, S>);

/// `faststr::FastStr`, an immutable string that is cheap to clone.
#[verifier::external_type_specification]
#[verifier::external_body]
pub struct ExFastStr(FastStr);

/// `ahash::RandomState`, the hasher that a bag is made with.
#[verifier::external_type_specification]
#[verifier::external_body]
pub struct ExRandomState(ahash::RandomState);

/// A key with its value, both as text.
pub type Entry = (Seq<char>, Seq<char>);

/// What a bag holds: each key with its value, as text.
pub uninterp spec fn bag_entries(bag: AHashMap<FastStr, FastStr>) -> Map<Seq<char>, Seq<char>>;

/// The contents of a bag that holds nothing.
pub open spec fn no_entries() -> Map<Seq<char>, Seq<char>> {
    Map::empty()
}

/// The text of each pair of `items`, in the same order.
pub open spec fn entry_views(items: Seq<(String, String)>) -> Seq<Entry> {
    Seq::new(items.len(), |i: int| (items[i].0@, items[i].1@))
}

/// `listing` walks `entries` once: each key of the map stands in it
/// exactly once, beside its value. The order is left open.
pub open spec fn lists(listing: Seq<Entry>, entries: Map<Seq<char>, Seq<char>>) -> bool {
    &&& forall|i: int|
        0 <= i < listing.len() ==> entries.contains_pair(
            (#[trigger] listing[i]).0,
            listing[i].1,
        )
    &&& forall|i: int, j: int|
        0 <= i < j < listing.len() ==> (#[trigger] listing[i]).0 != (#[trigger] listing[j]).0
    &&& forall|k: Seq<char>| #[trigger]
        entries.contains_key(k) ==> exists|i: int|
            0 <= i < listing.len() && (#[trigger] listing[i]).0 == k
}

/// `AHashMap::new`: a bag that holds nothing.
#[verifier::external_body]
pub(crate) fn bag_new() -> (bag: AHashMap<FastStr, FastStr>)
    ensures
        bag_entries(bag) == no_entries(),
{
    AHashMap::new()
}

/// `AHashMap::insert`, with key and value made by `FastStr::new`: the bag
/// afterwards holds `value` under `key` and is otherwise as before.
#[verifier::external_body]
pub(crate) fn bag_insert(bag: &mut AHashMap<FastStr, FastStr>, key: &str, value: &str)
    ensures
        bag_entries(*final(bag)) == bag_entries(*old(bag)).insert(key@, value@),
{
    bag.insert(FastStr::new(key), FastStr::new(value));
}

/// `HashMap::iter`, reached through the bag's `Deref`: every pair that the
/// bag holds, once, in an order that the hasher decides. Keys and values
/// are copied out as `String`s.
#[verifier::external_body]
pub(crate) fn bag_listing(bag: &AHashMap<FastStr, FastStr>) -> (items: Vec<(String, String)>)
    ensures
        lists(entry_views(items@), bag_entries(*bag)),
{
    bag.iter().map(|(k, v)| (k.to_string(), v.to_string())).collect()
}

/// `AHashMap::get`, with the key as a string slice: the value that the
/// bag holds under `key`, copied out, or nothing.
#[verifier::external_body]
pub(crate) fn bag_get(bag: &AHashMap<FastStr, FastStr>, key: &str) -> (value: Option<String>)
    ensures
        value is Some <==> bag_entries(*bag).contains_key(key@),
        value matches Some(v) ==> v@ == bag_entries(*bag)[key@],
{
    bag.get(key).map(|v| v.to_string())
}

/// `Clone` of `AHashMap`: a bag that holds what `bag` holds.
#[verifier::external_body]
pub(crate) fn bag_clone(bag: &AHashMap<FastStr, FastStr>) -> (copy: AHashMap<FastStr, FastStr>)
    ensures
        bag_entries(copy) == bag_entries(*bag),
{
    bag.clone()
}

/// Whether every entry of `filter` is an entry of `bag`.
pub fn holds_all(bag: &AHashMap<FastStr, FastStr>, filter: &AHashMap<FastStr, FastStr>) -> (r: bool)
    ensures
        r == bag_entries(*filter).submap_of(bag_entries(*bag)),
{
    let items = listing(filter);
    let ghost wanted = bag_entries(*filter);
    let ghost held = bag_entries(*bag);
    let ghost views = entry_views(items@);
    let mut i: usize = 0;
    while i < items.len()
        invariant
            i <= items.len(),
            views == entry_views(items@),
            lists(views, wanted),
            wanted == bag_entries(*filter),
            held == bag_entries(*bag),
            forall|j: int| 0 <= j < i ==> held.contains_pair((#[trigger] views[j]).0, views[j].1),
        decreases items.len() - i,
    {
        let found = match bag_get(bag, items[i].0.as_str()) {
            Some(value) => value == items[i].1,
            None => false,
        };
        if !found {
            proof {
                assert(wanted.contains_pair(views[i as int].0, views[i as int].1));
                assert(!held.contains_pair(views[i as int].0, views[i as int].1));
            }
            return false;
        }
        i = i + 1;
    }
    proof {
        assert forall|k: Seq<char>| #[trigger] wanted.dom().contains(k) implies held.dom().contains(
            k,
        ) && wanted[k] == held[k] by {
            assert(wanted.contains_key(k));
            let j = choose|j: int| 0 <= j < views.len() && (#[trigger] views[j]).0 == k;
            assert(wanted.contains_pair(views[j].0, views[j].1));
            assert(held.contains_pair(views[j].0, views[j].1));
        }
    }
    true
}

/// The pairs of a bag, in the order in which the map hands them out.
pub fn listing(bag: &AHashMap<FastStr, FastStr>) -> (items: Vec<(String, String)>)
    ensures
        lists(entry_views(items@), bag_entries(*bag)),
        items.len() == 0 <==> bag_entries(*bag) == no_entries(),
{
    let items = bag_listing(bag);
    proof {
        let views = entry_views(items@);
        if items.len() == 0 {
            assert(bag_entries(*bag) =~= no_entries());
        } else {
            assert(bag_entries(*bag).contains_pair(views[0].0, views[0].1));
        }
    }
    items
}

} // verus!
