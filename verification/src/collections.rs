//! The hash maps and hash sets of the graph.
//!
//! The graph keeps its tables in `rustc_hash`'s `FxHashMap` and `FxHashSet`
//! (std's `HashMap` and `HashSet` with the deterministic `FxHasher`).  Each
//! std method that the graph calls on them stands behind one trusted wrapper
//! below, whose contract describes the method over the map's view `m@` (for a
//! set, `s@`).  The wrappers are generic over the key type, which is bounded
//! by [`HashKey`]: only the id types of this crate implement it.
use vstd::prelude::*;
use rustc_hash::{FxHashMap, FxHashSet, FxHasher};
use std::hash::BuildHasherDefault;

verus! {

/// `rustc_hash::FxHasher`, carried opaquely as the hasher of the tables.
#[verifier::external_type_specification]
#[verifier::external_body]
pub struct ExFxHasher(FxHasher);

/// `std::hash::BuildHasherDefault`, the hash builder of `FxHashMap` and
/// `FxHashSet`.
#[verifier::external_type_specification]
#[verifier::external_body]
#[verifier::reject_recursive_types(H)]
pub struct ExBuildHasherDefault<H>(BuildHasherDefault<H>);

/// Key types of the graph's tables.
///
/// Sealed: its supertrait `Sealed` lives in a private module, so only this
/// crate can implement it, and it does so only for its plain id types, each
/// of which derives `PartialEq`, `Eq` and `Hash` over integer fields: two
/// keys are equal under `==` exactly when they are the same value, and equal
/// keys hash alike.  The wrappers below rely on that.
pub trait HashKey: crate::sealed::Sealed + Eq + std::hash::Hash + Copy {}

/// `FxHashMap::default()`: an empty map.
#[verifier::external_body]
pub fn map_new<K: HashKey, V>() -> (m: FxHashMap<K, V>)
    ensures
        m@.is_empty(),
{
    FxHashMap::default()
}

/// `HashMap::insert`: maps `k` to `v` and hands back the value that `k` had.
#[verifier::external_body]
pub fn map_insert<K: HashKey, V>(m: &mut FxHashMap<K, V>, k: K, v: V) -> (r: Option<V>)
    ensures
        final(m)@ == old(m)@.insert(k, v),
        r == (if old(m)@.contains_key(k) { Some(old(m)@[k]) } else { None }),
{
    m.insert(k, v)
}

/// `HashMap::remove`: drops `k` and hands back the value that it had.
#[verifier::external_body]
pub fn map_remove<K: HashKey, V>(m: &mut FxHashMap<K, V>, k: &K) -> (r: Option<V>)
    ensures
        final(m)@ == old(m)@.remove(*k),
        r == (if old(m)@.contains_key(*k) { Some(old(m)@[*k]) } else { None }),
{
    m.remove(k)
}

/// `HashMap::contains_key`.
#[verifier::external_body]
pub fn map_contains_key<K: HashKey, V>(m: &FxHashMap<K, V>, k: &K) -> (r: bool)
    ensures
        r == m@.contains_key(*k),
{
    m.contains_key(k)
}

/// `HashMap::get`: a shared reference to the value of `k`.
#[verifier::external_body]
pub fn map_get<'a, K: HashKey, V>(m: &'a FxHashMap<K, V>, k: &K) -> (r: Option<&'a V>)
    ensures
        match r {
            Some(v) => m@.contains_key(*k) && *v == m@[*k],
            None => !m@.contains_key(*k),
        },
{
    m.get(k)
}

/// `HashMap::get_mut`: an exclusive reference to the value of `k`; what is
/// written through it becomes the value of `k`.
#[verifier::external_body]
pub fn map_get_mut<'a, K: HashKey, V>(m: &'a mut FxHashMap<K, V>, k: &K) -> (r: Option<&'a mut V>)
    ensures
        match r {
            Some(v) => {
                &&& old(m)@.contains_key(*k)
                &&& *v == old(m)@[*k]
                &&& final(m)@ == old(m)@.insert(*k, *final(v))
            },
            None => !old(m)@.contains_key(*k) && final(m)@ == old(m)@,
        },
{
    m.get_mut(k)
}

/// `FxHashSet::default()`: an empty set.
#[verifier::external_body]
pub fn set_new<K: HashKey>() -> (s: FxHashSet<K>)
    ensures
        s@.is_empty(),
{
    FxHashSet::default()
}

/// `HashSet::insert`: adds `k`; true when it was not there before.
#[verifier::external_body]
pub fn set_insert<K: HashKey>(s: &mut FxHashSet<K>, k: K) -> (r: bool)
    ensures
        final(s)@ == old(s)@.insert(k),
        r == !old(s)@.contains(k),
{
    s.insert(k)
}

/// `HashSet::remove`: drops `k`; true when it was there.
#[verifier::external_body]
pub fn set_remove<K: HashKey>(s: &mut FxHashSet<K>, k: &K) -> (r: bool)
    ensures
        final(s)@ == old(s)@.remove(*k),
        r == old(s)@.contains(*k),
{
    s.remove(k)
}

/// `HashSet::iter`, collected: every element once, in the set's own
/// iteration order.  That order depends on how the set was filled, so the
/// contract fixes the elements and not their order.
#[verifier::external_body]
pub fn set_elements<K: HashKey>(s: &FxHashSet<K>) -> (v: Vec<K>)
    ensures
        v@.no_duplicates(),
        v@.to_set() == s@,
{
    s.iter().copied().collect()
}

} // verus!
