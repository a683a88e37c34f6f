//! Collections that can say whether they hold an item, as the methods need
//! that pick units by a set of types, abilities or tags.
use vstd::prelude::*;
use crate::bot::{contains_upgrade, has_upgrade_in};
use crate::game_data::{contains_type, has_type};
use crate::ids::{AbilityId, UnitTypeId, UpgradeId};
use crate::orders::{contains_ability, has_ability_in};
use crate::tags::{OrderedTags, TagSet};

verus! {

/// A collection of which one can ask whether it holds an item.
pub trait Container<T> {
    /// Whether the collection holds the item.
    spec fn holds(&self, item: T) -> bool;

    /// Checks if the collection holds the item.
    fn contains(&self, item: &T) -> (r: bool)
        ensures
            r == self.holds(*item),
    ;
}

impl Container<UnitTypeId> for Vec<UnitTypeId> {
    open spec fn holds(&self, item: UnitTypeId) -> bool {
        has_type(self@, item)
    }

    fn contains(&self, item: &UnitTypeId) -> (r: bool) {
        contains_type(self, *item)
    }
}

impl Container<AbilityId> for Vec<AbilityId> {
    open spec fn holds(&self, item: AbilityId) -> bool {
        has_ability_in(self@, item)
    }

    fn contains(&self, item: &AbilityId) -> (r: bool) {
        contains_ability(self.as_slice(), *item)
    }
}

impl Container<UpgradeId> for Vec<UpgradeId> {
    open spec fn holds(&self, item: UpgradeId) -> bool {
        has_upgrade_in(self@, item)
    }

    fn contains(&self, item: &UpgradeId) -> (r: bool) {
        contains_upgrade(self, *item)
    }
}

impl Container<u64> for Vec<u64> {
    open spec fn holds(&self, item: u64) -> bool {
        self@.contains(item)
    }

    fn contains(&self, item: &u64) -> (r: bool) {
        let mut i: usize = 0;
        while i < self.len()
            invariant
                i <= self.len(),
                forall|j: int| 0 <= j < i ==> self@[j] != *item,
            decreases self.len() - i,
        {
            if self[i] == *item {
                return true;
            }
            i += 1;
        }
        false
    }
}

impl Container<u64> for TagSet {
    open spec fn holds(&self, item: u64) -> bool {
        self@.contains(item)
    }

    fn contains(&self, item: &u64) -> (r: bool) {
        TagSet::contains(self, *item)
    }
}

impl Container<u64> for OrderedTags {
    open spec fn holds(&self, item: u64) -> bool {
        self@.contains(item)
    }

    fn contains(&self, item: &u64) -> (r: bool) {
        OrderedTags::contains(self, *item)
    }
}

} // verus!
