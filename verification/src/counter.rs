//! Counting things by kind.
use vstd::prelude::*;
use crate::ids::{AbilityId, UnitTypeId};

verus! {

/// Kind by which things are counted.
pub trait CountKey: Copy + Sized {
    /// Checks if two kinds are the same.
    fn same(&self, other: &Self) -> (r: bool)
        ensures
            r == (*self == *other),
    ;
}

impl CountKey for UnitTypeId {
    fn same(&self, other: &Self) -> (r: bool) {
        *self == *other
    }
}

impl CountKey for AbilityId {
    fn same(&self, other: &Self) -> (r: bool) {
        *self == *other
    }
}

/// How many of kind `k` the entries count together.
pub open spec fn counted<K>(entries: Seq<(K, usize)>, k: K) -> nat
    decreases entries.len(),
{
    if entries.len() == 0 {
        0
    } else {
        counted(entries.drop_last(), k) + if entries.last().0 == k {
            entries.last().1 as nat
        } else {
            0nat
        }
    }
}

/// Counts of things by kind.
pub struct Counter<K> {
    entries: Vec<(K, usize)>,
}

impl<K: CountKey> Counter<K> {
    /// How many of kind `k` were counted.
    pub closed spec fn count(&self, k: K) -> nat {
        counted(self.entries@, k)
    }

    /// Counter that has counted nothing.
    pub fn new() -> (r: Counter<K>)
        ensures
            forall|k: K| r.count(k) == 0,
    {
        Counter { entries: Vec::new() }
    }

    /// How many of kind `k` were counted; the greatest `usize` where more
    /// were.
    pub fn get(&self, k: K) -> (n: usize)
        ensures
            n == if self.count(k) > usize::MAX {
                usize::MAX as nat
            } else {
                self.count(k)
            },
    {
        let mut n: usize = 0;
        let mut i: usize = 0;
        while i < self.entries.len()
            invariant
                i <= self.entries.len(),
                n == if counted(self.entries@.take(i as int), k) > usize::MAX {
                    usize::MAX as nat
                } else {
                    counted(self.entries@.take(i as int), k)
                },
            decreases self.entries.len() - i,
        {
            assert(self.entries@.take(i + 1).drop_last() =~= self.entries@.take(i as int));
            if self.entries[i].0.same(&k) {
                n = n.saturating_add(self.entries[i].1);
            }
            i += 1;
        }
        assert(self.entries@.take(self.entries.len() as int) =~= self.entries@);
        n
    }

    /// Counts one more of kind `k`.
    pub fn add_one(&mut self, k: K)
        ensures
            final(self).count(k) == old(self).count(k) + 1,
            forall|other: K| other != k ==> final(self).count(other) == old(self).count(other),
    {
        let ghost before = self.entries@;
        let mut i: usize = 0;
        while i < self.entries.len()
            invariant
                i <= self.entries.len(),
                self.entries@ == before,
                before == old(self).entries@,
            decreases self.entries.len() - i,
        {
            if self.entries[i].0.same(&k) && self.entries[i].1 < usize::MAX {
                let n = self.entries[i].1;
                self.entries.set(i, (k, n + 1));
                proof {
                    lemma_counted_update(before, i as int, k, (n + 1) as usize);
                }
                return ;
            }
            i += 1;
        }
        self.entries.push((k, 1));
        proof {
            assert(self.entries@.drop_last() =~= before);
            assert forall|other: K| other != k implies counted(self.entries@, other) == counted(
                before,
                other,
            ) by {}
        }
    }
}

proof fn lemma_counted_update<K>(entries: Seq<(K, usize)>, i: int, k: K, n: usize)
    requires
        0 <= i < entries.len(),
        entries[i].0 == k,
    ensures
        counted(entries.update(i, (k, n)), k) == counted(entries, k) - entries[i].1 + n,
        forall|other: K|
            other != k ==> #[trigger] counted(entries.update(i, (k, n)), other) == counted(
                entries,
                other,
            ),
    decreases entries.len(),
{
    let after = entries.update(i, (k, n));
    if i == entries.len() - 1 {
        assert(after.drop_last() =~= entries.drop_last());
        assert(after.last() == (k, n));
        assert forall|other: K| other != k implies #[trigger] counted(after, other) == counted(
            entries,
            other,
        ) by {
            assert(after.last().0 != other);
            assert(entries.last().0 != other);
        }
    } else {
        assert(after.drop_last() =~= entries.drop_last().update(i, (k, n)));
        assert(after.last() == entries.last());
        lemma_counted_update(entries.drop_last(), i, k, n);
        assert forall|other: K| other != k implies #[trigger] counted(after, other) == counted(
            entries,
            other,
        ) by {
            assert(counted(after.drop_last(), other) == counted(entries.drop_last(), other));
        }
    }
}

} // verus!
