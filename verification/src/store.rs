//! The persistence layer: stable key-value maps for encoded records, and the
//! identifier counter cell, both kept in structures of `ic_stable_structures`
//! behind trusted contracts. Each structure owns a fresh backing memory.

use vstd::prelude::*;
use ic_stable_structures::DefaultMemoryImpl;
use ic_stable_structures::btreemap::BTreeMap as StableMap;
use ic_stable_structures::cell::Cell as StableCell;

verus! {

/// A persistent map from identifiers to encoded records. It wraps a stable
/// B-tree map of `ic_stable_structures`; the verifier sees it only through
/// [`map_contents`] and the trusted operations below.
#[verifier::external_body]
pub struct ByteMap {
    inner: StableMap<u64, Vec<u8>, DefaultMemoryImpl>,
}

/// What a [`ByteMap`] holds: the mathematical map from each stored key to the
/// bytes stored under it.
pub uninterp spec fn map_contents(m: ByteMap) -> Map<u64, Seq<u8>>;

/// Relies on `ic_stable_structures::BTreeMap::new` on a fresh backing
/// memory: the new map is empty.
#[verifier::external_body]
pub fn byte_map_new() -> (res: ByteMap)
    ensures
        forall|k: u64| !map_contents(res).contains_key(k),
{
    ByteMap { inner: StableMap::new(DefaultMemoryImpl::default()) }
}

/// Relies on `ic_stable_structures::BTreeMap::insert`: upserts the value
/// under the key and leaves every other key unchanged. Aborts only if the
/// backing memory cannot grow.
#[verifier::external_body]
pub fn byte_map_insert(m: &mut ByteMap, key: u64, value: Vec<u8>)
    ensures
        map_contents(*final(m)) == map_contents(*old(m)).insert(key, value@),
{
    m.inner.insert(key, value);
}

/// Relies on `ic_stable_structures::BTreeMap::get`: returns the value stored
/// under the key, or `None` if the key is absent.
#[verifier::external_body]
pub fn byte_map_get(m: &ByteMap, key: &u64) -> (r: Option<Vec<u8>>)
    ensures
        match r {
            Some(v) => map_contents(*m).contains_key(*key) && v@ == map_contents(*m)[*key],
            None => !map_contents(*m).contains_key(*key),
        },
{
    m.inner.get(key)
}

/// The persistent cell that holds the identifier counter. It wraps a stable
/// cell of `ic_stable_structures`; the verifier sees it only through
/// [`id_cell_value`] and the trusted operations below.
#[verifier::external_body]
pub struct IdCell {
    inner: StableCell<u64, DefaultMemoryImpl>,
}

/// What an [`IdCell`] holds.
pub uninterp spec fn id_cell_value(c: IdCell) -> u64;

/// Relies on `ic_stable_structures::Cell::new` on a fresh backing memory:
/// the cell holds the given initial value.
#[verifier::external_body]
pub fn id_cell_new(initial: u64) -> (c: IdCell)
    ensures
        id_cell_value(c) == initial,
{
    IdCell { inner: StableCell::new(DefaultMemoryImpl::default(), initial) }
}

/// Relies on `ic_stable_structures::Cell::get`: returns the held value.
#[verifier::external_body]
pub fn id_cell_get(c: &IdCell) -> (v: u64)
    ensures
        v == id_cell_value(*c),
{
    *c.inner.get()
}

/// Relies on `ic_stable_structures::Cell::set`: replaces the held value and
/// returns the previous one. Aborts only if the backing memory cannot grow.
#[verifier::external_body]
pub fn id_cell_set(c: &mut IdCell, v: u64) -> (prev: u64)
    ensures
        id_cell_value(*final(c)) == v,
        prev == id_cell_value(*old(c)),
{
    c.inner.set(v)
}

} // verus!
