//! The ordered hash collections that hold units and tags.
//!
//! Units are kept in an `indexmap::IndexMap` from tag to unit and ordered
//! sets of tags in an `indexmap::IndexSet`, both hashed with
//! `rustc_hash::FxHasher`. Nothing in this file is proved: each function
//! states what the collection's own documentation says of one method, over
//! the sequence of entries that the collection holds in its order.
use vstd::prelude::*;
use indexmap::{IndexMap, IndexSet};
use rustc_hash::FxHasher;
use std::hash::BuildHasherDefault;
use crate::unit::Unit;

verus! {

/// `rustc_hash::FxHasher`, the hasher of both collections. Nothing is said
/// of it: no contract depends on what it computes.
#[verifier::external_type_specification]
#[verifier::external_body]
pub struct ExFxHasher(FxHasher);

/// `std::hash::BuildHasherDefault`, which makes the hasher for a
/// collection. Nothing is said of it.
#[verifier::external_type_specification]
#[verifier::external_body]
#[verifier::reject_recursive_types(H)]
pub struct ExBuildHasherDefault<H>(BuildHasherDefault<H>);

/// `indexmap::IndexMap`. What a map of units holds is known only through
/// [`map_entries`] and the functions below.
#[verifier::external_type_specification]
#[verifier::external_body]
#[verifier::reject_recursive_types(K)]
#[verifier::reject_recursive_types(V)]
#[verifier::reject_recursive_types(S)]
pub struct ExIndexMap<K, V, S>(IndexMap<K, V, S>);

/// `indexmap::IndexSet`. What a set of tags holds is known only through
/// [`set_items`] and the functions below.
#[verifier::external_type_specification]
#[verifier::external_body]
#[verifier::reject_recursive_types(T)]
#[verifier::reject_recursive_types(S)]
pub struct ExIndexSet<T, S>(IndexSet<T, S>);

/// Map from tag to unit that keeps the order in which tags were first inserted.
pub type UnitMap = IndexMap<u64, Unit, BuildHasherDefault<FxHasher>>;

/// Set of tags that keeps the order in which they were inserted.
pub type TagList = IndexSet<u64, BuildHasherDefault<FxHasher>>;

/// The entries of a map of units, in the map's order.
pub uninterp spec fn map_entries(m: UnitMap) -> Seq<(u64, Unit)>;

/// The tags of an ordered set, in the set's order.
pub uninterp spec fn set_items(s: TagList) -> Seq<u64>;

/// Whether the entry at place `i` has the key `k`.
pub open spec fn entry_at(s: Seq<(u64, Unit)>, k: u64, i: int) -> bool {
    0 <= i < s.len() && s[i].0 == k
}

/// `IndexMap::with_hasher` with the default `FxHasher` builder: a map
/// without entries.
#[verifier::external_body]
pub(crate) fn map_new() -> (m: UnitMap)
    ensures
        map_entries(m) == Seq::<(u64, Unit)>::empty(),
{
    IndexMap::with_hasher(BuildHasherDefault::<FxHasher>::default())
}

/// `IndexMap::len`: the number of entries.
#[verifier::external_body]
pub(crate) fn map_len(m: &UnitMap) -> (n: usize)
    ensures
        n == map_entries(*m).len(),
{
    m.len()
}

/// `IndexMap::insert`: where the key is in the map, its entry keeps its place,
/// takes the new value and the old value is returned; where it is not, the
/// entry is added last and `None` is returned.
#[verifier::external_body]
pub(crate) fn map_insert(m: &mut UnitMap, k: u64, v: Unit) -> (r: Option<Unit>)
    ensures
        (exists|i: int| entry_at(map_entries(*old(m)), k, i)) ==> {
            let i = choose|i: int| entry_at(map_entries(*old(m)), k, i);
            r == Some(map_entries(*old(m))[i].1) && map_entries(*final(m)) == map_entries(
                *old(m),
            ).update(i, (k, v))
        },
        !(exists|i: int| entry_at(map_entries(*old(m)), k, i)) ==> r.is_none() && map_entries(
            *final(m),
        ) == map_entries(*old(m)).push((k, v)),
{
    m.insert(k, v)
}

/// `IndexMap::shift_remove`: where the key is in the map, its entry is
/// removed, the entries behind it move up by one place and keep their order,
/// and its value is returned; where it is not, nothing changes and `None` is
/// returned.
#[verifier::external_body]
pub(crate) fn map_shift_remove(m: &mut UnitMap, k: u64) -> (r: Option<Unit>)
    ensures
        (exists|i: int| entry_at(map_entries(*old(m)), k, i)) ==> {
            let i = choose|i: int| entry_at(map_entries(*old(m)), k, i);
            r == Some(map_entries(*old(m))[i].1) && map_entries(*final(m)) == map_entries(
                *old(m),
            ).remove(i)
        },
        !(exists|i: int| entry_at(map_entries(*old(m)), k, i)) ==> r.is_none() && map_entries(
            *final(m),
        ) == map_entries(*old(m)),
{
    m.shift_remove(&k)
}

/// `IndexMap::get`: the value stored for the key, `None` where the key is not
/// in the map.
#[verifier::external_body]
pub(crate) fn map_get(m: &UnitMap, k: u64) -> (r: Option<&Unit>)
    ensures
        (exists|i: int| entry_at(map_entries(*m), k, i)) ==> r == Some(
            &map_entries(*m)[choose|i: int| entry_at(map_entries(*m), k, i)].1,
        ),
        !(exists|i: int| entry_at(map_entries(*m), k, i)) ==> r.is_none(),
{
    m.get(&k)
}

/// `IndexMap::get_index`: the value of the entry at a place in the order,
/// `None` where the map has fewer entries.
#[verifier::external_body]
pub(crate) fn map_get_index(m: &UnitMap, i: usize) -> (r: Option<&Unit>)
    ensures
        i < map_entries(*m).len() ==> r == Some(&map_entries(*m)[i as int].1),
        i >= map_entries(*m).len() ==> r.is_none(),
{
    m.get_index(i).map(|e| e.1)
}

/// `IndexMap::pop`: removes the last entry and returns its value, `None`
/// where the map is empty.
#[verifier::external_body]
pub(crate) fn map_pop(m: &mut UnitMap) -> (r: Option<Unit>)
    ensures
        map_entries(*old(m)).len() > 0 ==> r == Some(map_entries(*old(m)).last().1)
            && map_entries(*final(m)) == map_entries(*old(m)).drop_last(),
        map_entries(*old(m)).len() == 0 ==> r.is_none() && map_entries(*final(m))
            == map_entries(*old(m)),
{
    m.pop().map(|e| e.1)
}

/// `IndexMap::clear`: removes every entry.
#[verifier::external_body]
pub(crate) fn map_clear(m: &mut UnitMap)
    ensures
        map_entries(*final(m)) == Seq::<(u64, Unit)>::empty(),
{
    m.clear()
}

/// `IndexSet::with_hasher` with the default `FxHasher` builder: a set
/// without tags.
#[verifier::external_body]
pub(crate) fn set_new() -> (s: TagList)
    ensures
        set_items(s) == Seq::<u64>::empty(),
{
    IndexSet::with_hasher(BuildHasherDefault::<FxHasher>::default())
}

/// `IndexSet::len`: the number of tags.
#[verifier::external_body]
pub(crate) fn set_len(s: &TagList) -> (n: usize)
    ensures
        n == set_items(*s).len(),
{
    s.len()
}

/// `IndexSet::insert`: a tag that is in the set changes nothing and gives
/// `false`; one that is not is added last and gives `true`.
#[verifier::external_body]
pub(crate) fn set_insert(s: &mut TagList, k: u64) -> (added: bool)
    ensures
        added == !set_items(*old(s)).contains(k),
        set_items(*final(s)) == if added {
            set_items(*old(s)).push(k)
        } else {
            set_items(*old(s))
        },
{
    s.insert(k)
}

/// `IndexSet::contains`: whether the tag is in the set.
#[verifier::external_body]
pub(crate) fn set_contains(s: &TagList, k: u64) -> (r: bool)
    ensures
        r == set_items(*s).contains(k),
{
    s.contains(&k)
}

/// `IndexSet::get_index`: the tag at a place in the order, `None` where the
/// set has fewer tags.
#[verifier::external_body]
pub(crate) fn set_get_index(s: &TagList, i: usize) -> (r: Option<u64>)
    ensures
        i < set_items(*s).len() ==> r == Some(set_items(*s)[i as int]),
        i >= set_items(*s).len() ==> r.is_none(),
{
    s.get_index(i).copied()
}

} // verus!
