//! Collections of units: found by tag, walked in the order of insertion.
use vstd::prelude::*;

use crate::store::{
    entry_at, map_clear, map_entries, map_get, map_get_index, map_insert, map_len, map_new, map_pop,
    map_shift_remove, UnitMap,
};
use crate::unit::{Unit, UnitView};

verus! {

/// Whether the unit at place `i` of a sequence has the tag `tag`.
pub open spec fn tag_at(s: Seq<UnitView>, tag: u64, i: int) -> bool {
    0 <= i < s.len() && s[i].tag == tag
}

/// Whether some unit of the sequence has the tag `tag`.
pub open spec fn has_tag(s: Seq<UnitView>, tag: u64) -> bool {
    exists|i: int| tag_at(s, tag, i)
}

/// The place of the unit with the tag `tag`, where the sequence has one.
pub open spec fn place_of(s: Seq<UnitView>, tag: u64) -> int {
    choose|i: int| tag_at(s, tag, i)
}

/// Whether no two units of the sequence share a tag.
pub open spec fn distinct_tags(s: Seq<UnitView>) -> bool {
    forall|i: int, j: int| 0 <= i < j < s.len() ==> (#[trigger] s[i]).tag != (#[trigger] s[j]).tag
}

/// The tags of the units of a sequence, in its order.
pub open spec fn tags_of(s: Seq<UnitView>) -> Seq<u64> {
    s.map_values(|u: UnitView| u.tag)
}

/// The set of the tags of the units of a sequence.
pub open spec fn tag_set(s: Seq<UnitView>) -> Set<u64> {
    Set::new(|t: u64| has_tag(s, t))
}

/// The sequence after a unit was pushed: a unit with a new tag is added last,
/// one with a tag that is there takes the place of the unit that had the tag.
pub open spec fn pushed(s: Seq<UnitView>, u: UnitView) -> Seq<UnitView> {
    if has_tag(s, u.tag) {
        s.update(place_of(s, u.tag), u)
    } else {
        s.push(u)
    }
}

/// The sequence after the unit with the tag `tag` was removed: the other
/// units keep their order. Without such a unit the sequence is unchanged.
pub open spec fn removed(s: Seq<UnitView>, tag: u64) -> Seq<UnitView> {
    if has_tag(s, tag) {
        s.remove(place_of(s, tag))
    } else {
        s
    }
}

/// The units of `s` that `keep` marks, in their order.
pub open spec fn kept(s: Seq<UnitView>, keep: Seq<bool>) -> Seq<UnitView>
    decreases s.len(),
{
    if s.len() == 0 || keep.len() != s.len() {
        Seq::empty()
    } else if keep.last() {
        kept(s.drop_last(), keep.drop_last()).push(s.last())
    } else {
        kept(s.drop_last(), keep.drop_last())
    }
}

/// Marking the units that meet a condition keeps the units that
/// `Seq::filter` keeps.
pub proof fn lemma_kept_is_filter(s: Seq<UnitView>, keep: Seq<bool>, pred: spec_fn(UnitView) -> bool)
    requires
        keep.len() == s.len(),
        forall|i: int| 0 <= i < s.len() ==> keep[i] == pred(#[trigger] s[i]),
    ensures
        kept(s, keep) == s.filter(pred),
    decreases s.len(),
{
    reveal(Seq::filter);
    if s.len() > 0 {
        lemma_kept_is_filter(s.drop_last(), keep.drop_last(), pred);
        assert(keep.last() == pred(s[s.len() - 1]));
    }
}

/// Whether `v` is a unit of `s` that `keep` marks.
pub open spec fn marked(s: Seq<UnitView>, keep: Seq<bool>, v: UnitView) -> bool {
    exists|i: int| 0 <= i < s.len() && keep[i] && s[i] == v
}

/// Every unit that is kept is a marked unit of the sequence, every marked
/// unit is kept, and units with distinct tags stay so.
pub proof fn lemma_kept_members(s: Seq<UnitView>, keep: Seq<bool>)
    requires
        keep.len() == s.len(),
    ensures
        forall|k: int| 0 <= k < kept(s, keep).len() ==> marked(s, keep, #[trigger] kept(s, keep)[k]),
        forall|i: int| 0 <= i < s.len() && keep[i] ==> kept(s, keep).contains(#[trigger] s[i]),
        distinct_tags(s) ==> distinct_tags(kept(s, keep)),
        kept(s, keep).len() <= s.len(),
    decreases s.len(),
{
    if s.len() > 0 {
        let s0 = s.drop_last();
        let k0 = keep.drop_last();
        lemma_kept_members(s0, k0);
        let r0 = kept(s0, k0);
        let r = kept(s, keep);
        assert forall|k: int| 0 <= k < r.len() implies marked(s, keep, #[trigger] r[k]) by {
            if k < r0.len() {
                assert(r[k] == r0[k]);
                assert(marked(s0, k0, r0[k]));
                let i = choose|i: int| 0 <= i < s0.len() && k0[i] && s0[i] == r0[k];
                assert(0 <= i < s.len() && keep[i] && s[i] == r[k]);
            } else {
                let i = s.len() - 1;
                assert(0 <= i < s.len() && keep[i] && s[i] == r[k]);
            }
        }
        assert forall|i: int| 0 <= i < s.len() && keep[i] implies r.contains(#[trigger] s[i]) by {
            if i < s0.len() {
                assert(s0[i] == s[i]);
                assert(r0.contains(s0[i]));
                let k = choose|k: int| 0 <= k < r0.len() && r0[k] == s0[i];
                assert(r[k] == s[i]);
            } else {
                assert(r[r.len() - 1] == s[i]);
            }
        }
        if distinct_tags(s) {
            assert(distinct_tags(s0)) by {
                assert forall|i: int, j: int| 0 <= i < j < s0.len() implies (#[trigger] s0[i]).tag
                    != (#[trigger] s0[j]).tag by {
                    assert(s[i].tag != s[j].tag);
                }
            }
            assert forall|a: int, b: int| 0 <= a < b < r.len() implies (#[trigger] r[a]).tag != (
            #[trigger] r[b]).tag by {
                if b < r0.len() {
                    assert(r0[a].tag != r0[b].tag);
                } else {
                    assert(r[a] == r0[a]);
                    assert(marked(s0, k0, r0[a]));
                    let i = choose|i: int| 0 <= i < s0.len() && k0[i] && s0[i] == r0[a];
                    assert(s[i].tag != s[s.len() - 1].tag);
                }
            }
        }
    }
}

/// Collection of units. No two units in it share a tag.
pub struct Units {
    map: UnitMap,
}

impl View for Units {
    type V = Seq<UnitView>;

    closed spec fn view(&self) -> Seq<UnitView> {
        map_entries(self.map).map_values(|e: (u64, Unit)| e.1@)
    }
}

impl Units {
    /// The units themselves, in the collection's order.
    pub closed spec fn units(&self) -> Seq<Unit> {
        map_entries(self.map).map_values(|e: (u64, Unit)| e.1)
    }

    /// Whether the collection is one that its methods keep: every unit is
    /// filed under its own tag, and no two units share a tag.
    pub closed spec fn wf(&self) -> bool {
        &&& forall|i: int|
            0 <= i < map_entries(self.map).len() ==> (#[trigger] map_entries(self.map)[i]).0
                == map_entries(self.map)[i].1.tag
        &&& forall|i: int, j: int|
            0 <= i < j < map_entries(self.map).len() ==> (#[trigger] map_entries(self.map)[i]).0 != (
            #[trigger] map_entries(self.map)[j]).0
    }

    /// In a collection that its methods keep no two units share a tag, and
    /// the units' views are the collection's view.
    pub proof fn lemma_wf(&self)
        requires
            self.wf(),
        ensures
            distinct_tags(self@),
            self.units().len() == self@.len(),
            forall|i: int| 0 <= i < self@.len() ==> (#[trigger] self.units()[i])@ == self@[i],
    {
        let e = map_entries(self.map);
        assert forall|i: int, j: int| 0 <= i < j < self@.len() implies (#[trigger] self@[i]).tag != (
        #[trigger] self@[j]).tag by {
            assert(e[i].0 != e[j].0);
            assert(e[i].0 == e[i].1.tag);
            assert(e[j].0 == e[j].1.tag);
        }
    }

    proof fn lemma_entry(&self, tag: u64)
        requires
            self.wf(),
        ensures
            has_tag(self@, tag) == exists|i: int| entry_at(map_entries(self.map), tag, i),
            has_tag(self@, tag) ==> place_of(self@, tag) == choose|i: int|
                entry_at(map_entries(self.map), tag, i),
    {
        let e = map_entries(self.map);
        self.lemma_wf();
        if exists|i: int| entry_at(e, tag, i) {
            let i = choose|i: int| entry_at(e, tag, i);
            assert(e[i].0 == e[i].1.tag);
            assert(tag_at(self@, tag, i));
            let p = place_of(self@, tag);
            if p != i {
                if p < i {
                    assert(self@[p].tag != self@[i].tag);
                } else {
                    assert(self@[i].tag != self@[p].tag);
                }
            }
        } else if has_tag(self@, tag) {
            let p = place_of(self@, tag);
            assert(e[p].0 == e[p].1.tag);
            assert(entry_at(e, tag, p));
        }
    }

    /// The collection holds as many units as its view.
    pub proof fn lemma_len(&self)
        ensures
            self.units().len() == self@.len(),
            forall|i: int| 0 <= i < self@.len() ==> (#[trigger] self.units()[i])@ == self@[i],
    {
    }

    /// Empty collection.
    pub fn new() -> (r: Units)
        ensures
            r.wf(),
            r@ == Seq::<UnitView>::empty(),
    {
        let r = Units { map: map_new() };
        assert(r@ =~= Seq::<UnitView>::empty());
        r
    }

    /// Number of units in the collection.
    pub fn len(&self) -> (n: usize)
        ensures
            n == self@.len(),
    {
        map_len(&self.map)
    }

    /// Checks if the collection holds no unit.
    pub fn is_empty(&self) -> (r: bool)
        ensures
            r == (self@.len() == 0),
    {
        map_len(&self.map) == 0
    }

    /// Inserts a unit. Where the collection holds a unit with the same tag,
    /// the new unit takes its place and the old one is returned.
    pub fn push(&mut self, u: Unit) -> (r: Option<Unit>)
        requires
            old(self).wf(),
        ensures
            final(self).wf(),
            final(self)@ == pushed(old(self)@, u@),
            match r {
                Some(prev) => has_tag(old(self)@, u.tag) && prev@ == old(self)@[place_of(
                    old(self)@,
                    u.tag,
                )],
                None => !has_tag(old(self)@, u.tag),
            },
    {
        proof {
            self.lemma_entry(u.tag);
        }
        let ghost e = map_entries(self.map);
        let tag = u.tag;
        let r = map_insert(&mut self.map, tag, u);
        proof {
            let e2 = map_entries(self.map);
            if exists|i: int| entry_at(e, tag, i) {
                let i = choose|i: int| entry_at(e, tag, i);
                assert(self@ =~= pushed(old(self)@, u@));
                assert forall|a: int, b: int| 0 <= a < b < e2.len() implies (#[trigger] e2[a]).0 != (
                #[trigger] e2[b]).0 by {
                    assert(e[a].0 != e[b].0);
                }
                assert forall|a: int| 0 <= a < e2.len() implies (#[trigger] e2[a]).0
                    == e2[a].1.tag by {
                    assert(e[a].0 == e[a].1.tag || a == i);
                }
            } else {
                assert(self@ =~= pushed(old(self)@, u@));
                assert forall|a: int, b: int| 0 <= a < b < e2.len() implies (#[trigger] e2[a]).0 != (
                #[trigger] e2[b]).0 by {
                    if b < e.len() {
                        assert(e[a].0 != e[b].0);
                    } else {
                        assert(!entry_at(e, tag, a));
                    }
                }
                assert forall|a: int| 0 <= a < e2.len() implies (#[trigger] e2[a]).0
                    == e2[a].1.tag by {
                    assert(a == e.len() || e[a].0 == e[a].1.tag);
                }
            }
        }
        r
    }

    /// Removes and returns the last unit; `None` where the collection is empty.
    pub fn pop(&mut self) -> (r: Option<Unit>)
        requires
            old(self).wf(),
        ensures
            final(self).wf(),
            match r {
                Some(u) => old(self)@.len() > 0 && u@ == old(self)@.last() && final(self)@
                    == old(self)@.drop_last(),
                None => old(self)@.len() == 0 && final(self)@ == old(self)@,
            },
    {
        let ghost e = map_entries(self.map);
        let r = map_pop(&mut self.map);
        proof {
            let e2 = map_entries(self.map);
            if e.len() > 0 {
                assert(self@ =~= old(self)@.drop_last());
                assert forall|a: int, b: int| 0 <= a < b < e2.len() implies (#[trigger] e2[a]).0 != (
                #[trigger] e2[b]).0 by {
                    assert(e[a].0 != e[b].0);
                }
                assert forall|a: int| 0 <= a < e2.len() implies (#[trigger] e2[a]).0
                    == e2[a].1.tag by {
                    assert(e[a].0 == e[a].1.tag);
                }
            }
        }
        r
    }

    /// Removes and returns the unit with the given tag; the other units keep
    /// their order. `None` where no unit has the tag.
    pub fn remove(&mut self, tag: u64) -> (r: Option<Unit>)
        requires
            old(self).wf(),
        ensures
            final(self).wf(),
            final(self)@ == removed(old(self)@, tag),
            match r {
                Some(u) => has_tag(old(self)@, tag) && u@ == old(self)@[place_of(old(self)@, tag)],
                None => !has_tag(old(self)@, tag),
            },
            forall|t: u64| has_tag(final(self)@, t) == (t != tag && has_tag(old(self)@, t)),
    {
        proof {
            self.lemma_entry(tag);
            self.lemma_wf();
        }
        let ghost e = map_entries(self.map);
        let ghost v = self@;
        let r = map_shift_remove(&mut self.map, tag);
        proof {
            let e2 = map_entries(self.map);
            if exists|i: int| entry_at(e, tag, i) {
                let i = choose|i: int| entry_at(e, tag, i);
                let n = e.len() as int;
                assert(self@ =~= removed(v, tag));
                assert forall|a: int| 0 <= a < e2.len() implies (#[trigger] e2[a]).0
                    == e2[a].1.tag && e2[a] == (if a < i {
                    e[a]
                } else {
                    e[a + 1]
                }) by {
                    if a < i {
                        assert(e[a].0 == e[a].1.tag);
                    } else {
                        assert(e[a + 1].0 == e[a + 1].1.tag);
                    }
                }
                assert forall|a: int, b: int| 0 <= a < b < e2.len() implies (#[trigger] e2[a]).0 != (
                #[trigger] e2[b]).0 by {
                    let x = if a < i { a } else { a + 1 };
                    let y = if b < i { b } else { b + 1 };
                    assert(e[x].0 != e[y].0);
                }
                assert forall|t: u64| has_tag(self@, t) == (t != tag && has_tag(v, t)) by {
                    if has_tag(self@, t) {
                        let p = place_of(self@, t);
                        let x = if p < i { p } else { p + 1 };
                        assert(tag_at(v, t, x));
                        if x < i {
                            assert(v[x].tag != v[i].tag);
                        } else {
                            assert(v[i].tag != v[x].tag);
                        }
                    }
                    if t != tag && has_tag(v, t) {
                        let p = place_of(v, t);
                        if p < i {
                            assert(tag_at(self@, t, p));
                        } else {
                            assert(tag_at(self@, t, p - 1));
                        }
                    }
                }
            } else {
                assert(self@ =~= v);
            }
        }
        r
    }

    /// Removes every unit.
    pub fn clear(&mut self)
        ensures
            final(self).wf(),
            final(self)@ == Seq::<UnitView>::empty(),
    {
        map_clear(&mut self.map);
        assert(self@ =~= Seq::<UnitView>::empty());
    }

    /// Checks if the collection holds a unit with the given tag.
    pub fn contains_tag(&self, tag: u64) -> (r: bool)
        requires
            self.wf(),
        ensures
            r == has_tag(self@, tag),
    {
        proof {
            self.lemma_entry(tag);
        }
        map_get(&self.map, tag).is_some()
    }

    /// The unit with the given tag; `None` where no unit has the tag.
    pub fn get(&self, tag: u64) -> (r: Option<&Unit>)
        requires
            self.wf(),
        ensures
            match r {
                Some(u) => tag_at(self@, tag, place_of(self@, tag)) && u@ == self@[place_of(
                    self@,
                    tag,
                )] && u.tag == tag,
                None => !has_tag(self@, tag),
            },
    {
        proof {
            self.lemma_entry(tag);
        }
        map_get(&self.map, tag)
    }

    /// The unit at place `i` of the collection's order; `None` where the
    /// collection holds no more than `i` units.
    pub fn get_index(&self, i: usize) -> (r: Option<&Unit>)
        ensures
            match r {
                Some(u) => i < self@.len() && u@ == self@[i as int] && *u == self.units()[i as int],
                None => i >= self@.len(),
            },
    {
        map_get_index(&self.map, i)
    }

    /// The first unit of the collection; `None` where it is empty.
    pub fn first(&self) -> (r: Option<&Unit>)
        ensures
            match r {
                Some(u) => self@.len() > 0 && u@ == self@[0],
                None => self@.len() == 0,
            },
    {
        map_get_index(&self.map, 0)
    }

    /// The tags of the units, in the collection's order.
    pub fn tags(&self) -> (r: Vec<u64>)
        ensures
            r@ == tags_of(self@),
    {
        let mut r: Vec<u64> = Vec::new();
        let n = self.len();
        let mut i: usize = 0;
        while i < n
            invariant
                i <= n,
                n == self@.len(),
                r@ == tags_of(self@.take(i as int)),
            decreases n - i,
        {
            match self.get_index(i) {
                Some(u) => {
                    r.push(u.tag);
                },
                None => {},
            }
            assert(tags_of(self@.take(i + 1)) =~= tags_of(self@.take(i as int)).push(
                self@[i as int].tag,
            ));
            i += 1;
        }
        assert(self@.take(n as int) =~= self@);
        r
    }

    /// Pushes a copy of every unit of `other`, in the order of `other`.
    pub fn extend(&mut self, other: &Units)
        requires
            old(self).wf(),
        ensures
            final(self).wf(),
            final(self)@ == extended(old(self)@, other@),
    {
        let n = other.len();
        let mut i: usize = 0;
        while i < n
            invariant
                i <= n,
                n == other@.len(),
                self.wf(),
                self@ == extended(old(self)@, other@.take(i as int)),
            decreases n - i,
        {
            match other.get_index(i) {
                Some(u) => {
                    assert(other@.take(i + 1).drop_last() =~= other@.take(i as int));
                    self.push(u.clone());
                },
                None => {},
            }
            i += 1;
        }
        assert(other@.take(n as int) =~= other@);
    }

    /// Collection of the given units, pushed one after another.
    pub fn from_vec(units: Vec<Unit>) -> (r: Units)
        ensures
            r.wf(),
            r@ == extended(Seq::<UnitView>::empty(), views_of(units@)),
    {
        let mut r = Units::new();
        let mut units = units;
        let ghost given = units@;
        let n = units.len();
        let mut back: Vec<Unit> = Vec::new();
        while units.len() > 0
            invariant
                units.len() + back.len() == n,
                n == given.len(),
                units@ == given.take(units.len() as int),
                forall|j: int| 0 <= j < back.len() ==> #[trigger] back[j] == given[n - 1 - j],
            decreases units.len(),
        {
            let u = units.pop().unwrap();
            back.push(u);
        }
        let ghost mut done: int = 0;
        assert(views_of(given).take(0) =~= Seq::<UnitView>::empty());
        while back.len() > 0
            invariant
                0 <= done <= n,
                done + back.len() == n,
                n == given.len(),
                r.wf(),
                forall|j: int| 0 <= j < back.len() ==> #[trigger] back[j] == given[n - 1 - j],
                r@ == extended(Seq::<UnitView>::empty(), views_of(given).take(done)),
            decreases back.len(),
        {
            let u = back.pop().unwrap();
            proof {
                assert(u == given[done]);
                assert(views_of(given).take(done + 1).drop_last() =~= views_of(given).take(done));
                assert(views_of(given).take(done + 1).last() == u@);
            }
            r.push(u);
            proof {
                done = done + 1;
            }
        }
        assert(views_of(given).take(n as int) =~= views_of(given));
        r
    }

    /// Copy of the collection.
    pub fn duplicate(&self) -> (r: Units)
        requires
            self.wf(),
        ensures
            r.wf(),
            r@ == self@,
    {
        let keep = self.mark_all();
        proof {
            lemma_kept_all(self@, keep@);
        }
        self.select(&keep)
    }

    fn mark_all(&self) -> (keep: Vec<bool>)
        ensures
            keep.len() == self@.len(),
            forall|i: int| 0 <= i < keep.len() ==> keep[i],
    {
        let mut keep: Vec<bool> = Vec::new();
        let n = self.len();
        let mut i: usize = 0;
        while i < n
            invariant
                i <= n,
                keep.len() == i,
                forall|j: int| 0 <= j < i ==> keep[j],
            decreases n - i,
        {
            keep.push(true);
            i += 1;
        }
        keep
    }

    /// New collection of the units that `keep` marks.
    pub fn select(&self, keep: &Vec<bool>) -> (r: Units)
        requires
            self.wf(),
            keep.len() == self@.len(),
        ensures
            r.wf(),
            r@ == kept(self@, keep@),
    {
        let mut r = Units::new();
        let n = self.len();
        let mut i: usize = 0;
        proof {
            self.lemma_wf();
        }
        while i < n
            invariant
                i <= n,
                n == self@.len(),
                keep.len() == n,
                self.wf(),
                distinct_tags(self@),
                r.wf(),
                r@ == kept(self@.take(i as int), keep@.take(i as int)),
            decreases n - i,
        {
            let ghost s0 = self@.take(i as int);
            let ghost k0 = keep@.take(i as int);
            assert(self@.take(i + 1).drop_last() =~= s0);
            assert(keep@.take(i + 1).drop_last() =~= k0);
            if keep[i] {
                match self.get_index(i) {
                    Some(u) => {
                        proof {
                            lemma_kept_members(s0, k0);
                            if has_tag(r@, u.tag) {
                                let p = place_of(r@, u.tag);
                                assert(marked(s0, k0, r@[p]));
                                let j = choose|j: int|
                                    0 <= j < s0.len() && k0[j] && s0[j] == r@[p];
                                assert(self@[j].tag != self@[i as int].tag);
                            }
                        }
                        r.push(u.clone());
                    },
                    None => {},
                }
            }
            i += 1;
        }
        assert(self@.take(n as int) =~= self@);
        assert(keep@.take(n as int) =~= keep@);
        r
    }
}

/// Marking every unit keeps the whole sequence.
pub proof fn lemma_kept_all(s: Seq<UnitView>, keep: Seq<bool>)
    requires
        keep.len() == s.len(),
        forall|i: int| 0 <= i < keep.len() ==> keep[i],
    ensures
        kept(s, keep) == s,
    decreases s.len(),
{
    if s.len() > 0 {
        lemma_kept_all(s.drop_last(), keep.drop_last());
        assert(kept(s, keep) =~= s);
    } else {
        assert(kept(s, keep) =~= s);
    }
}

/// The unit with the tag `tag`, where the sequence has one.
pub open spec fn entry_of(s: Seq<UnitView>, tag: u64) -> UnitView {
    s[place_of(s, tag)]
}

/// In a sequence without shared tags a tag stands at one place only.
pub proof fn lemma_one_place(s: Seq<UnitView>, tag: u64, i: int)
    requires
        distinct_tags(s),
        tag_at(s, tag, i),
    ensures
        has_tag(s, tag),
        place_of(s, tag) == i,
        entry_of(s, tag) == s[i],
{
    let p = place_of(s, tag);
    if p < i {
        assert(s[p].tag != s[i].tag);
    } else if i < p {
        assert(s[i].tag != s[p].tag);
    }
}

/// After a push the sequence holds the pushed unit under its tag and every
/// other unit as before.
pub proof fn lemma_pushed(s: Seq<UnitView>, u: UnitView)
    requires
        distinct_tags(s),
    ensures
        distinct_tags(pushed(s, u)),
        forall|t: u64| #[trigger] has_tag(pushed(s, u), t) <==> has_tag(s, t) || t == u.tag,
        entry_of(pushed(s, u), u.tag) == u,
        forall|t: u64| t != u.tag && has_tag(s, t) ==> #[trigger] entry_of(pushed(s, u), t) == entry_of(s, t),
{
    let r = pushed(s, u);
    if has_tag(s, u.tag) {
        let p = place_of(s, u.tag);
        assert forall|i: int, j: int| 0 <= i < j < r.len() implies (#[trigger] r[i]).tag != (
        #[trigger] r[j]).tag by {
            assert(s[i].tag != s[j].tag);
        }
        assert(tag_at(r, u.tag, p));
        lemma_one_place(r, u.tag, p);
        assert forall|t: u64| #[trigger] has_tag(r, t) <==> has_tag(s, t) || t == u.tag by {
            if has_tag(r, t) {
                let i = place_of(r, t);
                assert(tag_at(s, t, i));
            }
            if has_tag(s, t) {
                let i = place_of(s, t);
                assert(tag_at(r, t, i));
            }
        }
        assert forall|t: u64| t != u.tag && has_tag(s, t) implies #[trigger] entry_of(r, t)
            == entry_of(s, t) by {
            let i = place_of(s, t);
            assert(tag_at(r, t, i));
            lemma_one_place(r, t, i);
        }
    } else {
        let n = s.len() as int;
        assert forall|i: int, j: int| 0 <= i < j < r.len() implies (#[trigger] r[i]).tag != (
        #[trigger] r[j]).tag by {
            if j < n {
                assert(s[i].tag != s[j].tag);
            } else {
                assert(!tag_at(s, u.tag, i));
            }
        }
        assert(tag_at(r, u.tag, n));
        lemma_one_place(r, u.tag, n);
        assert forall|t: u64| #[trigger] has_tag(r, t) <==> has_tag(s, t) || t == u.tag by {
            if has_tag(r, t) {
                let i = place_of(r, t);
                if i < n {
                    assert(tag_at(s, t, i));
                }
            }
            if has_tag(s, t) {
                let i = place_of(s, t);
                assert(tag_at(r, t, i));
            }
        }
        assert forall|t: u64| t != u.tag && has_tag(s, t) implies #[trigger] entry_of(r, t)
            == entry_of(s, t) by {
            let i = place_of(s, t);
            assert(tag_at(r, t, i));
            lemma_one_place(r, t, i);
        }
    }
}

/// The views of some units, in their order.
pub open spec fn views_of(units: Seq<Unit>) -> Seq<UnitView> {
    units.map_values(|u: Unit| u@)
}

/// Units without shared tags that are pushed into an empty collection stand
/// there in the order in which they were pushed.
pub proof fn lemma_extended_distinct(s: Seq<UnitView>)
    requires
        distinct_tags(s),
    ensures
        extended(Seq::<UnitView>::empty(), s) == s,
    decreases s.len(),
{
    if s.len() > 0 {
        let head = s.drop_last();
        assert(distinct_tags(head)) by {
            assert forall|i: int, j: int| 0 <= i < j < head.len() implies (#[trigger] head[i]).tag
                != (#[trigger] head[j]).tag by {
                assert(s[i].tag != s[j].tag);
            }
        }
        lemma_extended_distinct(head);
        assert(!has_tag(head, s.last().tag)) by {
            if has_tag(head, s.last().tag) {
                let i = place_of(head, s.last().tag);
                assert(s[i].tag != s[s.len() - 1].tag);
            }
        }
        assert(extended(Seq::<UnitView>::empty(), s) =~= s);
    } else {
        assert(extended(Seq::<UnitView>::empty(), s) =~= s);
    }
}

/// The sequence after the units of `other` were pushed one after another.
pub open spec fn extended(s: Seq<UnitView>, other: Seq<UnitView>) -> Seq<UnitView>
    decreases other.len(),
{
    if other.len() == 0 {
        s
    } else {
        pushed(extended(s, other.drop_last()), other.last())
    }
}

/// After the units of `other` were pushed, the sequence holds the units of
/// `other` under their tags and every other unit as before.
pub proof fn lemma_extended(s: Seq<UnitView>, other: Seq<UnitView>)
    requires
        distinct_tags(s),
        distinct_tags(other),
    ensures
        distinct_tags(extended(s, other)),
        forall|t: u64| #[trigger] has_tag(extended(s, other), t) <==> has_tag(s, t) || has_tag(other, t),
        forall|t: u64| has_tag(other, t) ==> #[trigger] entry_of(extended(s, other), t) == entry_of(other, t),
        forall|t: u64|
            !has_tag(other, t) && has_tag(s, t) ==> #[trigger] entry_of(extended(s, other), t)
                == entry_of(s, t),
    decreases other.len(),
{
    if other.len() > 0 {
        let head = other.drop_last();
        let u = other.last();
        let n = other.len() - 1;
        assert(distinct_tags(head)) by {
            assert forall|i: int, j: int| 0 <= i < j < head.len() implies (#[trigger] head[i]).tag
                != (#[trigger] head[j]).tag by {
                assert(other[i].tag != other[j].tag);
            }
        }
        lemma_extended(s, head);
        let mid = extended(s, head);
        lemma_pushed(mid, u);
        let r = extended(s, other);
        assert(tag_at(other, u.tag, n));
        lemma_one_place(other, u.tag, n);
        assert(!has_tag(head, u.tag)) by {
            if has_tag(head, u.tag) {
                let i = place_of(head, u.tag);
                assert(other[i].tag != other[n].tag);
            }
        }
        assert forall|t: u64| has_tag(other, t) <==> has_tag(head, t) || t == u.tag by {
            if has_tag(other, t) {
                let i = place_of(other, t);
                if i < n {
                    assert(tag_at(head, t, i));
                }
            }
            if has_tag(head, t) {
                let i = place_of(head, t);
                assert(tag_at(other, t, i));
            }
        }
        assert forall|t: u64| has_tag(other, t) implies #[trigger] entry_of(r, t) == entry_of(
            other,
            t,
        ) by {
            if t != u.tag {
                assert(has_tag(head, t));
                assert(has_tag(mid, t));
                assert(entry_of(r, t) == entry_of(mid, t));
                assert(entry_of(mid, t) == entry_of(head, t));
                let i = place_of(head, t);
                assert(tag_at(other, t, i));
                lemma_one_place(other, t, i);
            }
        }
        assert forall|t: u64| !has_tag(other, t) && has_tag(s, t) implies #[trigger] entry_of(r, t)
            == entry_of(s, t) by {
            assert(has_tag(mid, t));
            assert(entry_of(r, t) == entry_of(mid, t));
        }
    }
}

/// The units that a condition keeps are the units of the sequence that meet
/// it: a tag is among them exactly if the unit with that tag meets the
/// condition. Units with distinct tags stay so.
pub proof fn lemma_filter_tags(s: Seq<UnitView>, pred: spec_fn(UnitView) -> bool)
    ensures
        forall|t: u64|
            #[trigger] has_tag(s.filter(pred), t) <==> exists|i: int| tag_at(s, t, i) && pred(s[i]),
        forall|k: int|
            0 <= k < s.filter(pred).len() ==> pred(#[trigger] s.filter(pred)[k]) && s.contains(
                s.filter(pred)[k],
            ),
        distinct_tags(s) ==> distinct_tags(s.filter(pred)),
        s.filter(pred).len() <= s.len(),
{
    let keep = Seq::new(s.len(), |i: int| pred(s[i]));
    lemma_kept_is_filter(s, keep, pred);
    lemma_kept_members(s, keep);
    let r = s.filter(pred);
    assert forall|k: int| 0 <= k < r.len() implies pred(#[trigger] r[k]) && s.contains(r[k]) by {
        assert(marked(s, keep, r[k]));
    }
    assert forall|t: u64| #[trigger] has_tag(r, t) <==> exists|i: int| tag_at(s, t, i) && pred(
        s[i],
    ) by {
        if has_tag(r, t) {
            let k = place_of(r, t);
            assert(tag_at(r, t, k));
            assert(marked(s, keep, r[k]));
            let i = choose|i: int| 0 <= i < s.len() && keep[i] && s[i] == r[k];
            assert(tag_at(s, t, i) && pred(s[i]));
        }
        if exists|i: int| tag_at(s, t, i) && pred(s[i]) {
            let i = choose|i: int| tag_at(s, t, i) && pred(s[i]);
            assert(keep[i]);
            assert(r.contains(s[i]));
            let k = choose|k: int| 0 <= k < r.len() && r[k] == s[i];
            assert(tag_at(r, t, k));
        }
    }
}

/// The units of one player, sorted into groups.
pub struct PlayerUnits {
    /// All units of the player, structures too.
    pub all: Units,
    /// Units that are no structures.
    pub units: Units,
    /// Structures.
    pub structures: Units,
    /// Main buildings.
    pub townhalls: Units,
    /// Workers.
    pub workers: Units,
    /// Buildings that harvest a geyser.
    pub gas_buildings: Units,
    /// Larvae.
    pub larvas: Units,
    /// Buildings whose construction was ordered and has not begun.
    pub placeholders: Units,
}

/// What the groups of a player hold.
pub struct PlayerView {
    /// See [`PlayerUnits::all`].
    pub all: Seq<UnitView>,
    /// See [`PlayerUnits::units`].
    pub units: Seq<UnitView>,
    /// See [`PlayerUnits::structures`].
    pub structures: Seq<UnitView>,
    /// See [`PlayerUnits::townhalls`].
    pub townhalls: Seq<UnitView>,
    /// See [`PlayerUnits::workers`].
    pub workers: Seq<UnitView>,
    /// See [`PlayerUnits::gas_buildings`].
    pub gas_buildings: Seq<UnitView>,
    /// See [`PlayerUnits::larvas`].
    pub larvas: Seq<UnitView>,
    /// See [`PlayerUnits::placeholders`].
    pub placeholders: Seq<UnitView>,
}

impl View for PlayerUnits {
    type V = PlayerView;

    open spec fn view(&self) -> PlayerView {
        PlayerView {
            all: self.all@,
            units: self.units@,
            structures: self.structures@,
            townhalls: self.townhalls@,
            workers: self.workers@,
            gas_buildings: self.gas_buildings@,
            larvas: self.larvas@,
            placeholders: self.placeholders@,
        }
    }
}

impl PlayerUnits {
    /// Whether every group is a collection that its methods keep.
    pub open spec fn wf(&self) -> bool {
        &&& self.all.wf()
        &&& self.units.wf()
        &&& self.structures.wf()
        &&& self.townhalls.wf()
        &&& self.workers.wf()
        &&& self.gas_buildings.wf()
        &&& self.larvas.wf()
        &&& self.placeholders.wf()
    }

    /// Whether every group is empty.
    pub open spec fn is_empty(&self) -> bool {
        &&& self.all@.len() == 0
        &&& self.units@.len() == 0
        &&& self.structures@.len() == 0
        &&& self.townhalls@.len() == 0
        &&& self.workers@.len() == 0
        &&& self.gas_buildings@.len() == 0
        &&& self.larvas@.len() == 0
        &&& self.placeholders@.len() == 0
    }

    /// Groups without units.
    pub fn new() -> (r: PlayerUnits)
        ensures
            r.wf(),
            r.is_empty(),
    {
        PlayerUnits {
            all: Units::new(),
            units: Units::new(),
            structures: Units::new(),
            townhalls: Units::new(),
            workers: Units::new(),
            gas_buildings: Units::new(),
            larvas: Units::new(),
            placeholders: Units::new(),
        }
    }

    /// Removes every unit from every group.
    pub fn clear(&mut self)
        ensures
            final(self).wf(),
            final(self).is_empty(),
    {
        self.all.clear();
        self.units.clear();
        self.structures.clear();
        self.townhalls.clear();
        self.workers.clear();
        self.gas_buildings.clear();
        self.larvas.clear();
        self.placeholders.clear();
    }
}

/// Every unit that an observation shows, sorted into groups.
pub struct AllUnits {
    /// All units: the bot's own, the opponent's and those of nobody.
    pub all: Units,
    /// The bot's own units.
    pub my: PlayerUnits,
    /// The opponent's units that the observation shows.
    pub enemy: PlayerUnits,
    /// The opponent's units as far as they are known: those of this
    /// observation and those remembered from earlier ones.
    pub cached: PlayerUnits,
    /// Mineral fields.
    pub mineral_fields: Units,
    /// Vespene geysers.
    pub vespene_geysers: Units,
    /// Mineral fields and vespene geysers.
    pub resources: Units,
    /// Rocks and other things that can be destroyed.
    pub destructables: Units,
    /// Watchtowers.
    pub watchtowers: Units,
    /// Zones that slow units down.
    pub inhibitor_zones: Units,
}

impl AllUnits {
    /// Whether every group is a collection that its methods keep.
    pub open spec fn wf(&self) -> bool {
        &&& self.all.wf()
        &&& self.my.wf()
        &&& self.enemy.wf()
        &&& self.cached.wf()
        &&& self.mineral_fields.wf()
        &&& self.vespene_geysers.wf()
        &&& self.resources.wf()
        &&& self.destructables.wf()
        &&& self.watchtowers.wf()
        &&& self.inhibitor_zones.wf()
    }

    /// Groups without units.
    pub fn new() -> (r: AllUnits)
        ensures
            r.wf(),
            r.all@.len() == 0,
            r.my.is_empty(),
            r.enemy.is_empty(),
            r.cached.is_empty(),
            r.mineral_fields@.len() == 0,
            r.vespene_geysers@.len() == 0,
            r.resources@.len() == 0,
            r.destructables@.len() == 0,
            r.watchtowers@.len() == 0,
            r.inhibitor_zones@.len() == 0,
    {
        AllUnits {
            all: Units::new(),
            my: PlayerUnits::new(),
            enemy: PlayerUnits::new(),
            cached: PlayerUnits::new(),
            mineral_fields: Units::new(),
            vespene_geysers: Units::new(),
            resources: Units::new(),
            destructables: Units::new(),
            watchtowers: Units::new(),
            inhibitor_zones: Units::new(),
        }
    }

    /// Removes the units of the last observation from every group. What is
    /// remembered of the opponent stays.
    pub fn clear(&mut self)
        requires
            old(self).cached.wf(),
        ensures
            final(self).wf(),
            final(self).cached == old(self).cached,
            final(self).all@.len() == 0,
            final(self).my.is_empty(),
            final(self).enemy.is_empty(),
            final(self).mineral_fields@.len() == 0,
            final(self).vespene_geysers@.len() == 0,
            final(self).resources@.len() == 0,
            final(self).destructables@.len() == 0,
            final(self).watchtowers@.len() == 0,
            final(self).inhibitor_zones@.len() == 0,
    {
        self.all.clear();
        self.my.clear();
        self.enemy.clear();
        self.mineral_fields.clear();
        self.vespene_geysers.clear();
        self.resources.clear();
        self.destructables.clear();
        self.watchtowers.clear();
        self.inhibitor_zones.clear();
    }
}

} // verus!
