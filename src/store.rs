//! The sparse cell store: an `ahash::AHashMap` from a position's key to its cell.

use vstd::prelude::*;

use crate::game::{Cell, Cells};

verus! {

/// `ahash::AHashMap`, a `std` hash map hashed with aHash; opaque here.
#[verifier::external_type_specification]
#[verifier::external_body]
#[verifier::reject_recursive_types(K)]
#[verifier::reject_recursive_types(V)]
#[verifier::reject_recursive_types(S)]
pub struct ExAHashMap<K, V, S>(ahash::AHashMap<K, V, S>);

/// `ahash::RandomState`, the map's default hasher builder; opaque here.
#[verifier::external_type_specification]
#[verifier::external_body]
pub struct ExRandomState(ahash::RandomState);

/// A map from position keys to cells.
pub type CellMap = ahash::AHashMap<(i32, i32), Cell>;

/// The cells that a map holds, by position key.
pub uninterp spec fn cells_of(m: ahash::AHashMap<(i32, i32), Cell>) -> Map<(i32, i32), Cell>;

/// Relies on `ahash::AHashMap::new`: a map with no entries.
#[verifier::external_body]
pub(crate) fn new_cell_map() -> (r: CellMap)
    ensures
        cells_of(r) == Cells::empty(),
{
    ahash::AHashMap::new()
}

/// Relies on `ahash::AHashMap::get`: the value stored under the key, if any.
#[verifier::external_body]
pub(crate) fn cell_at(m: &CellMap, k: (i32, i32)) -> (r: Option<Cell>)
    ensures
        r == (if cells_of(*m).dom().contains(k) {
            Some(cells_of(*m)[k])
        } else {
            None
        }),
{
    m.get(&k).copied()
}

/// Relies on `ahash::AHashMap::insert`: the key maps to the value afterwards,
/// every other entry is kept.
#[verifier::external_body]
pub(crate) fn insert_cell(m: &mut CellMap, k: (i32, i32), c: Cell)
    ensures
        cells_of(*final(m)) == cells_of(*old(m)).insert(k, c),
{
    m.insert(k, c);
}

/// Relies on `ahash::AHashMap::remove`: the key's entry is taken out and
/// returned, every other entry is kept.
#[verifier::external_body]
pub(crate) fn remove_cell(m: &mut CellMap, k: (i32, i32)) -> (r: Option<Cell>)
    ensures
        r == (if cells_of(*old(m)).dom().contains(k) {
            Some(cells_of(*old(m))[k])
        } else {
            None
        }),
        cells_of(*final(m)) == cells_of(*old(m)).remove(k),
{
    m.remove(&k)
}

} // verus!
