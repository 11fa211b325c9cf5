//! The set of live cells: a hash set of `(x, y)` pairs hashed with FNV.
//!
//! Verus knows the set by its view, a `Set<(usize, usize)>`. What the
//! operations below do to that view is taken on trust from the standard
//! library's documentation of `HashSet`; nothing here is proved.

use fnv::FnvHashSet;
use vstd::prelude::*;

verus! {

/// The FNV hasher. Nothing is said of it beyond its existence.
#[verifier::external_type_specification]
#[verifier::external_body]
pub struct ExFnvHasher(fnv::FnvHasher);

/// The builder that makes a hasher by `Default`. Nothing is said of it
/// beyond its existence.
#[verifier::external_type_specification]
#[verifier::external_body]
#[verifier::reject_recursive_types(H)]
pub struct ExBuildHasherDefault<H>(core::hash::BuildHasherDefault<H>);

/// `HashSet::insert` on an FNV-hashed set: afterwards the set holds `cell`
/// and whatever it held before, and the result tells whether `cell` was new.
#[verifier::external_body]
pub(crate) fn insert(set: &mut FnvHashSet<(usize, usize)>, cell: (usize, usize)) -> (fresh: bool)
    ensures
        final(set)@ == old(set)@.insert(cell),
        fresh == !old(set)@.contains(cell),
{
    set.insert(cell)
}

/// `HashSet::remove` on an FNV-hashed set: afterwards the set holds what it
/// held before except `cell`, and the result tells whether `cell` was there.
#[verifier::external_body]
pub(crate) fn remove(set: &mut FnvHashSet<(usize, usize)>, cell: (usize, usize)) -> (found: bool)
    ensures
        final(set)@ == old(set)@.remove(cell),
        found == old(set)@.contains(cell),
{
    set.remove(&cell)
}

/// `HashSet::iter` on an FNV-hashed set, gathered into a vector: every cell
/// of the set comes out exactly once, and nothing else does. The order is
/// left open.
#[verifier::external_body]
pub(crate) fn cells(set: &FnvHashSet<(usize, usize)>) -> (out: Vec<(usize, usize)>)
    ensures
        out@.no_duplicates(),
        forall|c: (usize, usize)| out@.contains(c) <==> set@.contains(c),
{
    set.iter().copied().collect()
}

} // verus!
