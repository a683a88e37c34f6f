//! Sets of unit tags.
use vstd::prelude::*;
use std::collections::{HashMap, HashSet};
use crate::store::{set_contains, set_get_index, set_insert, set_items, set_len, set_new, TagList};

verus! {

/// Set of unit tags.
pub struct TagSet {
    set: HashSet<u64>,
}

impl View for TagSet {
    type V = Set<u64>;

    closed spec fn view(&self) -> Set<u64> {
        self.set@
    }
}

impl TagSet {
    /// Empty set.
    pub fn new() -> (r: TagSet)
        ensures
            r@ == Set::<u64>::empty(),
    {
        TagSet { set: HashSet::new() }
    }

    /// Checks if the set holds the tag.
    pub fn contains(&self, tag: u64) -> (r: bool)
        ensures
            r == self@.contains(tag),
    {
        broadcast use vstd::std_specs::hash::group_hash_axioms;

        self.set.contains(&tag)
    }

    /// Adds the tag. Tells whether the set did not hold it before.
    pub fn insert(&mut self, tag: u64) -> (added: bool)
        ensures
            final(self)@ == old(self)@.insert(tag),
            added == !old(self)@.contains(tag),
    {
        broadcast use vstd::std_specs::hash::group_hash_axioms;

        self.set.insert(tag)
    }

    /// Removes the tag. Tells whether the set held it.
    pub fn remove(&mut self, tag: u64) -> (removed: bool)
        ensures
            final(self)@ == old(self)@.remove(tag),
            removed == old(self)@.contains(tag),
    {
        broadcast use vstd::std_specs::hash::group_hash_axioms;

        self.set.remove(&tag)
    }

    /// Removes every tag.
    pub fn clear(&mut self)
        ensures
            final(self)@ == Set::<u64>::empty(),
    {
        self.set.clear()
    }
}

/// The tags after `tag` was removed: the others keep their order. Without
/// the tag the sequence is unchanged.
pub open spec fn without(s: Seq<u64>, tag: u64) -> Seq<u64> {
    if s.contains(tag) {
        s.remove(s.index_of(tag))
    } else {
        s
    }
}

/// Removing a tag leaves the others in their order: where the tags stand in
/// the order of a key, those that stay stand in it still, and where the key
/// rises from each tag to the next, it does so still.
pub proof fn lemma_without_keeps_order(s: Seq<u64>, tag: u64, key: spec_fn(u64) -> int)
    ensures
        (forall|i: int, j: int| 0 <= i < j < s.len() ==> key(s[i]) <= key(s[j])) ==> forall|
            i: int,
            j: int,
        |
            0 <= i < j < without(s, tag).len() ==> key(#[trigger] without(s, tag)[i]) <= key(
                #[trigger] without(s, tag)[j],
            ),
        (forall|i: int, j: int| 0 <= i < j < s.len() ==> key(s[i]) < key(s[j])) ==> forall|
            i: int,
            j: int,
        |
            0 <= i < j < without(s, tag).len() ==> key(#[trigger] without(s, tag)[i]) < key(
                #[trigger] without(s, tag)[j],
            ),
{
    if s.contains(tag) {
        let p = s.index_of(tag);
        let w = without(s, tag);
        assert forall|i: int| 0 <= i < w.len() implies #[trigger] w[i] == s[if i < p {
            i
        } else {
            i + 1
        }] by {}
        if forall|i: int, j: int| 0 <= i < j < s.len() ==> key(s[i]) <= key(s[j]) {
            assert forall|i: int, j: int| 0 <= i < j < w.len() implies key(#[trigger] w[i]) <= key(
                #[trigger] w[j],
            ) by {
                let x = if i < p { i } else { i + 1 };
                let y = if j < p { j } else { j + 1 };
                assert(w[i] == s[x] && w[j] == s[y]);
            }
        }
        if forall|i: int, j: int| 0 <= i < j < s.len() ==> key(s[i]) < key(s[j]) {
            assert forall|i: int, j: int| 0 <= i < j < w.len() implies key(#[trigger] w[i]) < key(
                #[trigger] w[j],
            ) by {
                let x = if i < p { i } else { i + 1 };
                let y = if j < p { j } else { j + 1 };
                assert(w[i] == s[x] && w[j] == s[y]);
            }
        }
    }
}

/// Set of unit tags that keeps them in the order in which they were added.
pub struct OrderedTags {
    list: TagList,
}

impl View for OrderedTags {
    type V = Seq<u64>;

    closed spec fn view(&self) -> Seq<u64> {
        set_items(self.list)
    }
}

impl OrderedTags {
    /// Whether the set is one that its methods keep: no tag stands in it twice.
    pub open spec fn wf(&self) -> bool {
        self@.no_duplicates()
    }

    /// Empty set.
    pub fn new() -> (r: OrderedTags)
        ensures
            r.wf(),
            r@ == Seq::<u64>::empty(),
    {
        OrderedTags { list: set_new() }
    }

    /// Number of tags in the set.
    pub fn len(&self) -> (n: usize)
        ensures
            n == self@.len(),
    {
        set_len(&self.list)
    }

    /// Checks if the set holds no tag.
    pub fn is_empty(&self) -> (r: bool)
        ensures
            r == (self@.len() == 0),
    {
        set_len(&self.list) == 0
    }

    /// Checks if the set holds the tag.
    pub fn contains(&self, tag: u64) -> (r: bool)
        ensures
            r == self@.contains(tag),
    {
        set_contains(&self.list, tag)
    }

    /// Adds the tag behind the tags that the set holds, unless it holds the
    /// tag already. Tells whether the tag was added.
    pub fn insert(&mut self, tag: u64) -> (added: bool)
        requires
            old(self).wf(),
        ensures
            final(self).wf(),
            added == !old(self)@.contains(tag),
            final(self)@ == if added {
                old(self)@.push(tag)
            } else {
                old(self)@
            },
    {
        let ghost before = self@;
        let added = set_insert(&mut self.list, tag);
        proof {
            if added {
                assert forall|i: int, j: int|
                    0 <= i < self@.len() && 0 <= j < self@.len() && i != j implies self@[i]
                    != self@[j] by {
                    if i < before.len() && j < before.len() {
                    } else if i < before.len() {
                        assert(before.contains(before[i]));
                    } else {
                        assert(before.contains(before[j]));
                    }
                }
            }
        }
        added
    }

    /// Removes the tag; the other tags keep their order. Tells whether the
    /// set held the tag.
    pub fn remove(&mut self, tag: u64) -> (removed: bool)
        requires
            old(self).wf(),
        ensures
            final(self).wf(),
            removed == old(self)@.contains(tag),
            final(self)@ == without(old(self)@, tag),
            forall|t: u64| final(self)@.contains(t) == (t != tag && old(self)@.contains(t)),
    {
        if !set_contains(&self.list, tag) {
            return false;
        }
        let ghost before = self@;
        let ghost p = before.index_of(tag);
        let n = set_len(&self.list);
        let mut fresh = set_new();
        let mut i: usize = 0;
        while i < n
            invariant
                i <= n,
                n == before.len(),
                before == set_items(self.list),
                before.no_duplicates(),
                0 <= p < n,
                before[p] == tag,
                set_items(fresh) == if i <= p {
                    before.take(i as int)
                } else {
                    before.take(i as int).remove(p)
                },
            decreases n - i,
        {
            let ghost kept = set_items(fresh);
            match set_get_index(&self.list, i) {
                Some(t) => {
                    if t != tag {
                        proof {
                            assert(i != p);
                            if kept.contains(t) {
                                let j = choose|j: int| 0 <= j < kept.len() && kept[j] == t;
                                if i < p {
                                    assert(before[j] == t);
                                } else if j < p {
                                    assert(before[j] == t);
                                } else {
                                    assert(before[j + 1] == t);
                                }
                            }
                        }
                        let added = set_insert(&mut fresh, t);
                        assert(added);
                        proof {
                            if i < p {
                                assert(before.take(i + 1) =~= before.take(i as int).push(t));
                            } else {
                                assert(before.take(i + 1).remove(p) =~= before.take(i as int).remove(
                                    p,
                                ).push(t));
                            }
                        }
                    } else {
                        proof {
                            assert(i == p);
                            assert(before.take(i + 1).remove(p) =~= before.take(i as int));
                        }
                    }
                },
                None => {},
            }
            i += 1;
        }
        self.list = fresh;
        proof {
            assert(before.take(n as int) =~= before);
            let after = self@;
            assert(after == before.remove(p));
            assert forall|i: int, j: int|
                0 <= i < after.len() && 0 <= j < after.len() && i != j implies after[i]
                != after[j] by {
                let x = if i < p { i } else { i + 1 };
                let y = if j < p { j } else { j + 1 };
                assert(after[i] == before[x] && after[j] == before[y]);
            }
            assert forall|t: u64| after.contains(t) == (t != tag && before.contains(t)) by {
                if after.contains(t) {
                    let i = choose|i: int| 0 <= i < after.len() && after[i] == t;
                    let x = if i < p { i } else { i + 1 };
                    assert(before[x] == t);
                }
                if t != tag && before.contains(t) {
                    let x = choose|x: int| 0 <= x < before.len() && before[x] == t;
                    if x < p {
                        assert(after[x] == t);
                    } else {
                        assert(after[x - 1] == t);
                    }
                }
            }
        }
        true
    }

    /// The tag at place `i` of the set's order; `None` where the set holds no
    /// more than `i` tags.
    pub fn get_index(&self, i: usize) -> (r: Option<u64>)
        ensures
            r == if i < self@.len() {
                Some(self@[i as int])
            } else {
                None
            },
    {
        set_get_index(&self.list, i)
    }

    /// The tags in the set's order.
    pub fn to_vec(&self) -> (r: Vec<u64>)
        ensures
            r@ == self@,
    {
        let mut r: Vec<u64> = Vec::new();
        let n = self.len();
        let mut i: usize = 0;
        while i < n
            invariant
                i <= n,
                n == self@.len(),
                r@ == self@.take(i as int),
            decreases n - i,
        {
            match self.get_index(i) {
                Some(t) => {
                    r.push(t);
                },
                None => {},
            }
            assert(self@.take(i + 1) =~= self@.take(i as int).push(self@[i as int]));
            i += 1;
        }
        assert(self@.take(n as int) =~= self@);
        r
    }
}

/// A number kept for each of some unit tags.
pub struct TagMap {
    map: HashMap<u64, u32>,
}

impl View for TagMap {
    type V = Map<u64, u32>;

    closed spec fn view(&self) -> Map<u64, u32> {
        self.map@
    }
}

impl TagMap {
    /// Map without entries.
    pub fn new() -> (r: TagMap)
        ensures
            r@ == Map::<u64, u32>::empty(),
    {
        TagMap { map: HashMap::new() }
    }

    /// The number kept for the tag; `None` where none is kept.
    pub fn get(&self, tag: u64) -> (r: Option<u32>)
        ensures
            r == if self@.contains_key(tag) {
                Some(self@[tag])
            } else {
                None
            },
    {
        broadcast use vstd::std_specs::hash::group_hash_axioms;

        match self.map.get(&tag) {
            Some(v) => Some(*v),
            None => None,
        }
    }

    /// Keeps `value` for the tag, in place of what was kept for it.
    pub fn insert(&mut self, tag: u64, value: u32)
        ensures
            final(self)@ == old(self)@.insert(tag, value),
    {
        broadcast use vstd::std_specs::hash::group_hash_axioms;

        self.map.insert(tag, value);
    }

    /// Drops what is kept for the tag. Tells whether something was kept.
    pub fn remove(&mut self, tag: u64) -> (removed: bool)
        ensures
            final(self)@ == old(self)@.remove(tag),
            removed == old(self)@.contains_key(tag),
    {
        broadcast use vstd::std_specs::hash::group_hash_axioms;

        self.map.remove(&tag).is_some()
    }

    /// Drops every entry.
    pub fn clear(&mut self)
        ensures
            final(self)@ == Map::<u64, u32>::empty(),
    {
        self.map.clear()
    }
}

} // verus!
