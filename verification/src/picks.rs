//! Picking units out of a collection.
use vstd::prelude::*;
use crate::container::Container;
use crate::game_data::{alias_of, find_alias, GameData};
use crate::geometry::{dist2, is_root, Point2};
use crate::ids::{UnitTypeId, UpgradeId};
use crate::order::{rising_order, sorted_order};
use crate::tactics::{in_range_of_unit, in_real_range_of_unit};
use crate::tags::TagSet;
use crate::unit::{DisplayType, Unit, UnitView};
use crate::units::{
    has_tag, kept, lemma_extended_distinct, lemma_kept_is_filter, place_of, views_of, Units,
};

verus! {

/// Whether a building can take an order: it has none, or with a reactor
/// fewer than two.
pub open spec fn is_unused_view(u: UnitView, reactor_tags: Set<u64>) -> bool {
    if u.addon_tag.is_some() && reactor_tags.contains(u.addon_tag.unwrap()) {
        u.orders.len() < 2
    } else {
        u.orders.len() == 0
    }
}

/// Whether a building can take an order soon: with a reactor it has fewer
/// than two, or two of which one is at least 95% done; without, it is
/// almost idle.
pub open spec fn is_almost_unused_view(u: UnitView, reactor_tags: Set<u64>) -> bool {
    if u.addon_tag.is_some() && reactor_tags.contains(u.addon_tag.unwrap()) {
        u.orders.len() < 2 || (u.orders.len() == 2 && (u.orders[0].progress * 100 >= 95
            * crate::geometry::SCALE || u.orders[1].progress * 100 >= 95 * crate::geometry::SCALE))
    } else {
        u.is_almost_idle()
    }
}

impl Units {
    /// The units of the type.
    pub fn of_type(&self, unit_type: UnitTypeId) -> (r: Units)
        requires
            self.wf(),
        ensures
            r.wf(),
            r@ == self@.filter(|u: UnitView| u.type_id == unit_type),
    {
        let mut keep: Vec<bool> = Vec::new();
        let n = self.len();
        let mut i: usize = 0;
        while i < n
            invariant
                i <= n,
                n == self@.len(),
                keep.len() == i,
                forall|j: int|
                    0 <= j < i ==> keep[j] == ({
                        let u = self@[j];
                        u.type_id == unit_type
                    }),
            decreases n - i,
        {
            match self.get_index(i) {
                Some(u) => {
                    keep.push(u.type_id == unit_type);
                },
                None => {},
            }
            i += 1;
        }
        proof {
            lemma_kept_is_filter(self@, keep@, |u: UnitView| u.type_id == unit_type);
        }
        self.select(&keep)
    }

    /// The units that are not of the type.
    pub fn exclude_type(&self, unit_type: UnitTypeId) -> (r: Units)
        requires
            self.wf(),
        ensures
            r.wf(),
            r@ == self@.filter(|u: UnitView| u.type_id != unit_type),
    {
        let mut keep: Vec<bool> = Vec::new();
        let n = self.len();
        let mut i: usize = 0;
        while i < n
            invariant
                i <= n,
                n == self@.len(),
                keep.len() == i,
                forall|j: int|
                    0 <= j < i ==> keep[j] == ({
                        let u = self@[j];
                        u.type_id != unit_type
                    }),
            decreases n - i,
        {
            match self.get_index(i) {
                Some(u) => {
                    keep.push(u.type_id != unit_type);
                },
                None => {},
            }
            i += 1;
        }
        proof {
            lemma_kept_is_filter(self@, keep@, |u: UnitView| u.type_id != unit_type);
        }
        self.select(&keep)
    }

    /// The units of the type or of its other form.
    pub fn of_type_including_alias(&self, unit_type: UnitTypeId, data: &GameData) -> (r: Units)
        requires
            self.wf(),
        ensures
            r.wf(),
            r@ == self@.filter(|u: UnitView| u.type_id == unit_type || alias_of(data.unit_alias@, unit_type) == Some(u.type_id)),
    {
        let alias = find_alias(&data.unit_alias, unit_type);
        let mut keep: Vec<bool> = Vec::new();
        let n = self.len();
        let mut i: usize = 0;
        while i < n
            invariant
                i <= n,
                n == self@.len(),
                keep.len() == i,
                alias == alias_of(data.unit_alias@, unit_type),
                forall|j: int|
                    0 <= j < i ==> keep[j] == ({
                        let u = self@[j];
                        u.type_id == unit_type || alias_of(data.unit_alias@, unit_type) == Some(u.type_id)
                    }),
            decreases n - i,
        {
            match self.get_index(i) {
                Some(u) => {
                    keep.push(u.type_id == unit_type || alias == Some(u.type_id));
                },
                None => {},
            }
            i += 1;
        }
        proof {
            lemma_kept_is_filter(self@, keep@, |u: UnitView| u.type_id == unit_type || alias_of(data.unit_alias@, unit_type) == Some(u.type_id));
        }
        self.select(&keep)
    }

    /// The units of one of the types.
    pub fn of_types<T: Container<UnitTypeId>>(&self, types: &T) -> (r: Units)
        requires
            self.wf(),
        ensures
            r.wf(),
            r@ == self@.filter(|u: UnitView| types.holds(u.type_id)),
    {
        let mut keep: Vec<bool> = Vec::new();
        let n = self.len();
        let mut i: usize = 0;
        while i < n
            invariant
                i <= n,
                n == self@.len(),
                keep.len() == i,
                forall|j: int|
                    0 <= j < i ==> keep[j] == ({
                        let u = self@[j];
                        types.holds(u.type_id)
                    }),
            decreases n - i,
        {
            match self.get_index(i) {
                Some(u) => {
                    keep.push(types.contains(&u.type_id));
                },
                None => {},
            }
            i += 1;
        }
        proof {
            lemma_kept_is_filter(self@, keep@, |u: UnitView| types.holds(u.type_id));
        }
        self.select(&keep)
    }

    /// The units of none of the types.
    pub fn exclude_types<T: Container<UnitTypeId>>(&self, types: &T) -> (r: Units)
        requires
            self.wf(),
        ensures
            r.wf(),
            r@ == self@.filter(|u: UnitView| !types.holds(u.type_id)),
    {
        let mut keep: Vec<bool> = Vec::new();
        let n = self.len();
        let mut i: usize = 0;
        while i < n
            invariant
                i <= n,
                n == self@.len(),
                keep.len() == i,
                forall|j: int|
                    0 <= j < i ==> keep[j] == ({
                        let u = self@[j];
                        !types.holds(u.type_id)
                    }),
            decreases n - i,
        {
            match self.get_index(i) {
                Some(u) => {
                    keep.push(!types.contains(&u.type_id));
                },
                None => {},
            }
            i += 1;
        }
        proof {
            lemma_kept_is_filter(self@, keep@, |u: UnitView| !types.holds(u.type_id));
        }
        self.select(&keep)
    }

    /// The units that do not fly.
    pub fn ground(&self) -> (r: Units)
        requires
            self.wf(),
        ensures
            r.wf(),
            r@ == self@.filter(|u: UnitView| !u.is_flying),
    {
        let mut keep: Vec<bool> = Vec::new();
        let n = self.len();
        let mut i: usize = 0;
        while i < n
            invariant
                i <= n,
                n == self@.len(),
                keep.len() == i,
                forall|j: int|
                    0 <= j < i ==> keep[j] == ({
                        let u = self@[j];
                        !u.is_flying
                    }),
            decreases n - i,
        {
            match self.get_index(i) {
                Some(u) => {
                    keep.push(!u.is_flying);
                },
                None => {},
            }
            i += 1;
        }
        proof {
            lemma_kept_is_filter(self@, keep@, |u: UnitView| !u.is_flying);
        }
        self.select(&keep)
    }

    /// The units that fly.
    pub fn flying(&self) -> (r: Units)
        requires
            self.wf(),
        ensures
            r.wf(),
            r@ == self@.filter(|u: UnitView| u.is_flying),
    {
        let mut keep: Vec<bool> = Vec::new();
        let n = self.len();
        let mut i: usize = 0;
        while i < n
            invariant
                i <= n,
                n == self@.len(),
                keep.len() == i,
                forall|j: int|
                    0 <= j < i ==> keep[j] == ({
                        let u = self@[j];
                        u.is_flying
                    }),
            decreases n - i,
        {
            match self.get_index(i) {
                Some(u) => {
                    keep.push(u.is_flying);
                },
                None => {},
            }
            i += 1;
        }
        proof {
            lemma_kept_is_filter(self@, keep@, |u: UnitView| u.is_flying);
        }
        self.select(&keep)
    }

    /// The units whose construction is complete.
    pub fn ready(&self) -> (r: Units)
        requires
            self.wf(),
        ensures
            r.wf(),
            r@ == self@.filter(|u: UnitView| u.is_ready()),
    {
        let mut keep: Vec<bool> = Vec::new();
        let n = self.len();
        let mut i: usize = 0;
        while i < n
            invariant
                i <= n,
                n == self@.len(),
                keep.len() == i,
                forall|j: int|
                    0 <= j < i ==> keep[j] == ({
                        let u = self@[j];
                        u.is_ready()
                    }),
            decreases n - i,
        {
            match self.get_index(i) {
                Some(u) => {
                    keep.push(u.is_ready());
                },
                None => {},
            }
            i += 1;
        }
        proof {
            lemma_kept_is_filter(self@, keep@, |u: UnitView| u.is_ready());
        }
        self.select(&keep)
    }

    /// The units whose construction is not complete.
    pub fn not_ready(&self) -> (r: Units)
        requires
            self.wf(),
        ensures
            r.wf(),
            r@ == self@.filter(|u: UnitView| !u.is_ready()),
    {
        let mut keep: Vec<bool> = Vec::new();
        let n = self.len();
        let mut i: usize = 0;
        while i < n
            invariant
                i <= n,
                n == self@.len(),
                keep.len() == i,
                forall|j: int|
                    0 <= j < i ==> keep[j] == ({
                        let u = self@[j];
                        !u.is_ready()
                    }),
            decreases n - i,
        {
            match self.get_index(i) {
                Some(u) => {
                    keep.push(!u.is_ready());
                },
                None => {},
            }
            i += 1;
        }
        proof {
            lemma_kept_is_filter(self@, keep@, |u: UnitView| !u.is_ready());
        }
        self.select(&keep)
    }

    /// The units without orders.
    pub fn idle(&self) -> (r: Units)
        requires
            self.wf(),
        ensures
            r.wf(),
            r@ == self@.filter(|u: UnitView| u.orders.len() == 0),
    {
        let mut keep: Vec<bool> = Vec::new();
        let n = self.len();
        let mut i: usize = 0;
        while i < n
            invariant
                i <= n,
                n == self@.len(),
                keep.len() == i,
                forall|j: int|
                    0 <= j < i ==> keep[j] == ({
                        let u = self@[j];
                        u.orders.len() == 0
                    }),
            decreases n - i,
        {
            match self.get_index(i) {
                Some(u) => {
                    keep.push(u.is_idle());
                },
                None => {},
            }
            i += 1;
        }
        proof {
            lemma_kept_is_filter(self@, keep@, |u: UnitView| u.orders.len() == 0);
        }
        self.select(&keep)
    }

    /// The units without orders, or with one that is at least 95% done.
    pub fn almost_idle(&self) -> (r: Units)
        requires
            self.wf(),
        ensures
            r.wf(),
            r@ == self@.filter(|u: UnitView| u.is_almost_idle()),
    {
        let mut keep: Vec<bool> = Vec::new();
        let n = self.len();
        let mut i: usize = 0;
        while i < n
            invariant
                i <= n,
                n == self@.len(),
                keep.len() == i,
                forall|j: int|
                    0 <= j < i ==> keep[j] == ({
                        let u = self@[j];
                        u.is_almost_idle()
                    }),
            decreases n - i,
        {
            match self.get_index(i) {
                Some(u) => {
                    keep.push(u.is_almost_idle());
                },
                None => {},
            }
            i += 1;
        }
        proof {
            lemma_kept_is_filter(self@, keep@, |u: UnitView| u.is_almost_idle());
        }
        self.select(&keep)
    }

    /// The units that are seen now.
    pub fn visible(&self) -> (r: Units)
        requires
            self.wf(),
        ensures
            r.wf(),
            r@ == self@.filter(|u: UnitView| u.display_type == DisplayType::Visible),
    {
        let mut keep: Vec<bool> = Vec::new();
        let n = self.len();
        let mut i: usize = 0;
        while i < n
            invariant
                i <= n,
                n == self@.len(),
                keep.len() == i,
                forall|j: int|
                    0 <= j < i ==> keep[j] == ({
                        let u = self@[j];
                        u.display_type == DisplayType::Visible
                    }),
            decreases n - i,
        {
            match self.get_index(i) {
                Some(u) => {
                    keep.push(u.is_visible());
                },
                None => {},
            }
            i += 1;
        }
        proof {
            lemma_kept_is_filter(self@, keep@, |u: UnitView| u.display_type == DisplayType::Visible);
        }
        self.select(&keep)
    }

    /// The units no further than `distance` from `target`.
    pub fn closer(&self, distance: i64, target: Point2) -> (r: Units)
        requires
            self.wf(),
        ensures
            r.wf(),
            r@ == self@.filter(|u: UnitView| dist2(u.position, target) <= distance * distance),
    {
        let mut keep: Vec<bool> = Vec::new();
        let n = self.len();
        let mut i: usize = 0;
        while i < n
            invariant
                i <= n,
                n == self@.len(),
                keep.len() == i,
                forall|j: int|
                    0 <= j < i ==> keep[j] == ({
                        let u = self@[j];
                        dist2(u.position, target) <= distance * distance
                    }),
            decreases n - i,
        {
            match self.get_index(i) {
                Some(u) => {
                    keep.push(u.position.is_closer(distance, target));
                },
                None => {},
            }
            i += 1;
        }
        proof {
            lemma_kept_is_filter(self@, keep@, |u: UnitView| dist2(u.position, target) <= distance * distance);
        }
        self.select(&keep)
    }

    /// The units further than `distance` from `target`.
    pub fn further(&self, distance: i64, target: Point2) -> (r: Units)
        requires
            self.wf(),
        ensures
            r.wf(),
            r@ == self@.filter(|u: UnitView| dist2(u.position, target) > distance * distance),
    {
        let mut keep: Vec<bool> = Vec::new();
        let n = self.len();
        let mut i: usize = 0;
        while i < n
            invariant
                i <= n,
                n == self@.len(),
                keep.len() == i,
                forall|j: int|
                    0 <= j < i ==> keep[j] == ({
                        let u = self@[j];
                        dist2(u.position, target) > distance * distance
                    }),
            decreases n - i,
        {
            match self.get_index(i) {
                Some(u) => {
                    keep.push(u.position.is_further(distance, target));
                },
                None => {},
            }
            i += 1;
        }
        proof {
            lemma_kept_is_filter(self@, keep@, |u: UnitView| dist2(u.position, target) > distance * distance);
        }
        self.select(&keep)
    }

    /// The units in range of the weapons of `unit` as they are without upgrades, `gap` allowed.
    pub fn in_range_of(&self, unit: &Unit, gap: i32, data: &GameData) -> (r: Units)
        requires
            self.wf(),
        ensures
            r.wf(),
            r@ == self@.filter(|u: UnitView| in_range_of_unit(unit@, u, gap as int, data)),
    {
        let mut keep: Vec<bool> = Vec::new();
        let n = self.len();
        let mut i: usize = 0;
        while i < n
            invariant
                i <= n,
                n == self@.len(),
                keep.len() == i,
                forall|j: int|
                    0 <= j < i ==> keep[j] == ({
                        let u = self@[j];
                        in_range_of_unit(unit@, u, gap as int, data)
                    }),
            decreases n - i,
        {
            match self.get_index(i) {
                Some(u) => {
                    keep.push(unit.in_range(u, gap, data));
                },
                None => {},
            }
            i += 1;
        }
        proof {
            lemma_kept_is_filter(self@, keep@, |u: UnitView| in_range_of_unit(unit@, u, gap as int, data));
        }
        self.select(&keep)
    }

    /// The units that have `unit` in range of their weapons as they are without upgrades, `gap` allowed.
    pub fn in_range(&self, unit: &Unit, gap: i32, data: &GameData) -> (r: Units)
        requires
            self.wf(),
        ensures
            r.wf(),
            r@ == self@.filter(|u: UnitView| in_range_of_unit(u, unit@, gap as int, data)),
    {
        let mut keep: Vec<bool> = Vec::new();
        let n = self.len();
        let mut i: usize = 0;
        while i < n
            invariant
                i <= n,
                n == self@.len(),
                keep.len() == i,
                forall|j: int|
                    0 <= j < i ==> keep[j] == ({
                        let u = self@[j];
                        in_range_of_unit(u, unit@, gap as int, data)
                    }),
            decreases n - i,
        {
            match self.get_index(i) {
                Some(u) => {
                    keep.push(u.in_range(unit, gap, data));
                },
                None => {},
            }
            i += 1;
        }
        proof {
            lemma_kept_is_filter(self@, keep@, |u: UnitView| in_range_of_unit(u, unit@, gap as int, data));
        }
        self.select(&keep)
    }

    /// The units in range of the weapons of `unit` with the upgrades of its owner, `gap` allowed.
    pub fn in_real_range_of(&self, unit: &Unit, gap: i32, upgrades: &Vec<UpgradeId>, data: &GameData) -> (r: Units)
        requires
            self.wf(),
        ensures
            r.wf(),
            r@ == self@.filter(|u: UnitView| in_real_range_of_unit(unit@, u, gap as int, upgrades@, data)),
    {
        let mut keep: Vec<bool> = Vec::new();
        let n = self.len();
        let mut i: usize = 0;
        while i < n
            invariant
                i <= n,
                n == self@.len(),
                keep.len() == i,
                forall|j: int|
                    0 <= j < i ==> keep[j] == ({
                        let u = self@[j];
                        in_real_range_of_unit(unit@, u, gap as int, upgrades@, data)
                    }),
            decreases n - i,
        {
            match self.get_index(i) {
                Some(u) => {
                    keep.push(unit.in_real_range(u, gap, upgrades, data));
                },
                None => {},
            }
            i += 1;
        }
        proof {
            lemma_kept_is_filter(self@, keep@, |u: UnitView| in_real_range_of_unit(unit@, u, gap as int, upgrades@, data));
        }
        self.select(&keep)
    }

    /// The units that have `unit` in range of their weapons with the upgrades of their owner, `gap` allowed.
    pub fn in_real_range(&self, unit: &Unit, gap: i32, upgrades: &Vec<UpgradeId>, data: &GameData) -> (r: Units)
        requires
            self.wf(),
        ensures
            r.wf(),
            r@ == self@.filter(|u: UnitView| in_real_range_of_unit(u, unit@, gap as int, upgrades@, data)),
    {
        let mut keep: Vec<bool> = Vec::new();
        let n = self.len();
        let mut i: usize = 0;
        while i < n
            invariant
                i <= n,
                n == self@.len(),
                keep.len() == i,
                forall|j: int|
                    0 <= j < i ==> keep[j] == ({
                        let u = self@[j];
                        in_real_range_of_unit(u, unit@, gap as int, upgrades@, data)
                    }),
            decreases n - i,
        {
            match self.get_index(i) {
                Some(u) => {
                    keep.push(u.in_real_range(unit, gap, upgrades, data));
                },
                None => {},
            }
            i += 1;
        }
        proof {
            lemma_kept_is_filter(self@, keep@, |u: UnitView| in_real_range_of_unit(u, unit@, gap as int, upgrades@, data));
        }
        self.select(&keep)
    }

    /// The buildings that can take an order: those without orders, or with a reactor and fewer than two.
    pub fn unused(&self, reactor_tags: &TagSet) -> (r: Units)
        requires
            self.wf(),
        ensures
            r.wf(),
            r@ == self@.filter(|u: UnitView| is_unused_view(u, reactor_tags@)),
    {
        let mut keep: Vec<bool> = Vec::new();
        let n = self.len();
        let mut i: usize = 0;
        while i < n
            invariant
                i <= n,
                n == self@.len(),
                keep.len() == i,
                forall|j: int|
                    0 <= j < i ==> keep[j] == ({
                        let u = self@[j];
                        is_unused_view(u, reactor_tags@)
                    }),
            decreases n - i,
        {
            match self.get_index(i) {
                Some(u) => {
                    keep.push(u.is_unused(reactor_tags));
                },
                None => {},
            }
            i += 1;
        }
        proof {
            lemma_kept_is_filter(self@, keep@, |u: UnitView| is_unused_view(u, reactor_tags@));
        }
        self.select(&keep)
    }

    /// The buildings that can take an order soon.
    pub fn almost_unused(&self, reactor_tags: &TagSet) -> (r: Units)
        requires
            self.wf(),
        ensures
            r.wf(),
            r@ == self@.filter(|u: UnitView| is_almost_unused_view(u, reactor_tags@)),
    {
        let mut keep: Vec<bool> = Vec::new();
        let n = self.len();
        let mut i: usize = 0;
        while i < n
            invariant
                i <= n,
                n == self@.len(),
                keep.len() == i,
                forall|j: int|
                    0 <= j < i ==> keep[j] == ({
                        let u = self@[j];
                        is_almost_unused_view(u, reactor_tags@)
                    }),
            decreases n - i,
        {
            match self.get_index(i) {
                Some(u) => {
                    keep.push(u.is_almost_unused(reactor_tags));
                },
                None => {},
            }
            i += 1;
        }
        proof {
            lemma_kept_is_filter(self@, keep@, |u: UnitView| is_almost_unused_view(u, reactor_tags@));
        }
        self.select(&keep)
    }

    /// The units for which `f` tells `true`, in their order.
    pub fn filter<F: Fn(&Unit) -> bool>(&self, f: F) -> (r: Units)
        requires
            self.wf(),
            forall|u: &Unit| #[trigger] f.requires((u,)),
        ensures
            r.wf(),
            exists|keep: Seq<bool>|
                keep.len() == self@.len() && r@ == #[trigger] kept(self@, keep) && forall|i: int|
                    0 <= i < keep.len() ==> f.ensures((&#[trigger] self.units()[i],), keep[i]),
    {
        let mut keep: Vec<bool> = Vec::new();
        let n = self.len();
        let mut i: usize = 0;
        while i < n
            invariant
                i <= n,
                n == self@.len(),
                keep.len() == i,
                forall|u: &Unit| #[trigger] f.requires((u,)),
                forall|j: int| 0 <= j < i ==> f.ensures((&#[trigger] self.units()[j],), keep[j]),
            decreases n - i,
        {
            match self.get_index(i) {
                Some(u) => {
                    let b = f(u);
                    keep.push(b);
                },
                None => {},
            }
            i += 1;
        }
        let r = self.select(&keep);
        assert(keep@.len() == self@.len() && r@ == kept(self@, keep@));
        r
    }

    /// The units with the given tags, in the order of the tags. A tag that no
    /// unit has is passed over, and of a tag that is given twice the first
    /// counts.
    pub fn find_tags(&self, tags: &[u64]) -> (r: Units)
        requires
            self.wf(),
        ensures
            r.wf(),
            forall|t: u64|
                #[trigger] has_tag(r@, t) <==> has_tag(self@, t) && exists|k: int|
                    0 <= k < tags@.len() && tags@[k] == t,
            forall|t: u64|
                has_tag(r@, t) ==> #[trigger] r@[place_of(r@, t)] == self@[place_of(self@, t)],
    {
        let mut r = Units::new();
        let mut k: usize = 0;
        proof {
            assert forall|t: u64| !has_tag(r@, t) by {
                if has_tag(r@, t) {
                    let p = place_of(r@, t);
                }
            }
        }
        while k < tags.len()
            invariant
                k <= tags.len(),
                self.wf(),
                r.wf(),
                forall|t: u64|
                    #[trigger] has_tag(r@, t) <==> has_tag(self@, t) && exists|x: int|
                        0 <= x < k && tags@[x] == t,
                forall|t: u64|
                    has_tag(r@, t) ==> #[trigger] r@[place_of(r@, t)] == self@[place_of(self@, t)],
            decreases tags.len() - k,
        {
            let ghost before = r@;
            let tag = tags[k];
            match self.get(tag) {
                Some(u) => {
                    if !r.contains_tag(tag) {
                        proof {
                            r.lemma_wf();
                        }
                        r.push(u.clone());
                        proof {
                            crate::units::lemma_pushed(before, u@);
                            assert forall|t: u64|
                                #[trigger] has_tag(r@, t) <==> has_tag(self@, t) && exists|x: int|
                                    0 <= x < k + 1 && tags@[x] == t by {
                                if t == tag {
                                    assert(tags@[k as int] == t);
                                } else if has_tag(before, t) {
                                    let x = choose|x: int| 0 <= x < k && tags@[x] == t;
                                    assert(0 <= x < k + 1 && tags@[x] == t);
                                } else if exists|x: int| 0 <= x < k + 1 && tags@[x] == t {
                                    let x = choose|x: int| 0 <= x < k + 1 && tags@[x] == t;
                                    assert(x < k);
                                }
                            }
                            assert forall|t: u64| has_tag(r@, t) implies #[trigger] r@[place_of(
                                r@,
                                t,
                            )] == self@[place_of(self@, t)] by {
                                if t == tag {
                                    assert(crate::units::entry_of(r@, tag) == u@);
                                } else {
                                    assert(has_tag(before, t));
                                    assert(crate::units::entry_of(r@, t) == crate::units::entry_of(
                                        before,
                                        t,
                                    ));
                                }
                            }
                        }
                    } else {
                        proof {
                            assert forall|t: u64|
                                #[trigger] has_tag(r@, t) <==> has_tag(self@, t) && exists|x: int|
                                    0 <= x < k + 1 && tags@[x] == t by {
                                if has_tag(r@, t) {
                                    let x = choose|x: int| 0 <= x < k && tags@[x] == t;
                                    assert(0 <= x < k + 1 && tags@[x] == t);
                                } else if exists|x: int| 0 <= x < k + 1 && tags@[x] == t {
                                    let x = choose|x: int| 0 <= x < k + 1 && tags@[x] == t;
                                    if x < k {
                                    }
                                }
                            }
                        }
                    }
                },
                None => {
                    proof {
                        assert forall|t: u64|
                            #[trigger] has_tag(r@, t) <==> has_tag(self@, t) && exists|x: int|
                                0 <= x < k + 1 && tags@[x] == t by {
                            if has_tag(r@, t) {
                                let x = choose|x: int| 0 <= x < k && tags@[x] == t;
                                assert(0 <= x < k + 1 && tags@[x] == t);
                            } else if has_tag(self@, t) && exists|x: int|
                                0 <= x < k + 1 && tags@[x] == t {
                                let x = choose|x: int| 0 <= x < k + 1 && tags@[x] == t;
                                assert(x < k);
                            }
                        }
                    }
                },
            }
            k += 1;
        }
        r
    }
}

/// Sum of the `x` coordinates of the positions of the units.
pub open spec fn sum_of_x(s: Seq<UnitView>) -> int
    decreases s.len(),
{
    if s.len() == 0 {
        0
    } else {
        sum_of_x(s.drop_last()) + s.last().position.x
    }
}

/// Sum of the `y` coordinates of the positions of the units.
pub open spec fn sum_of_y(s: Seq<UnitView>) -> int
    decreases s.len(),
{
    if s.len() == 0 {
        0
    } else {
        sum_of_y(s.drop_last()) + s.last().position.y
    }
}

proof fn lemma_sums_of(s: Seq<UnitView>)
    ensures
        -0x8000_0000 * s.len() <= sum_of_x(s) <= 0x7fff_ffff * s.len(),
        -0x8000_0000 * s.len() <= sum_of_y(s) <= 0x7fff_ffff * s.len(),
    decreases s.len(),
{
    if s.len() > 0 {
        lemma_sums_of(s.drop_last());
        assert(-0x8000_0000 * s.len() == -0x8000_0000 * (s.len() - 1) - 0x8000_0000)
            by (nonlinear_arith);
        assert(0x7fff_ffff * s.len() == 0x7fff_ffff * (s.len() - 1) + 0x7fff_ffff)
            by (nonlinear_arith);
    }
}

/// Whether the unit at place `k` is the nearest to `target`, and the first
/// of those that are as near.
pub open spec fn is_closest(s: Seq<UnitView>, k: int, target: Point2) -> bool {
    &&& 0 <= k < s.len()
    &&& forall|j: int|
        0 <= j < s.len() ==> dist2(s[k].position, target) < dist2((#[trigger] s[j]).position, target)
            || (dist2(s[k].position, target) == dist2(s[j].position, target) && k <= j)
}

/// Whether the unit at place `k` is the furthest from `target`, and the last
/// of those that are as far.
pub open spec fn is_furthest(s: Seq<UnitView>, k: int, target: Point2) -> bool {
    &&& 0 <= k < s.len()
    &&& forall|j: int|
        0 <= j < s.len() ==> dist2(s[k].position, target) > dist2((#[trigger] s[j]).position, target)
            || (dist2(s[k].position, target) == dist2(s[j].position, target) && k >= j)
}

/// The keys that `f` gave for the units: whether `keys` holds for each unit
/// a number that `f` can give for it.
pub open spec fn keys_of<F: Fn(&Unit) -> i64>(f: F, units: Seq<Unit>, keys: Seq<i64>) -> bool {
    keys.len() == units.len() && forall|i: int|
        0 <= i < keys.len() ==> f.ensures((&#[trigger] units[i],), keys[i])
}

/// Whether the key at place `k` is the least, and the first of those that
/// are as small.
pub open spec fn is_least(keys: Seq<i64>, k: int) -> bool {
    &&& 0 <= k < keys.len()
    &&& forall|j: int|
        0 <= j < keys.len() ==> keys[k] < #[trigger] keys[j] || (keys[k] == keys[j] && k <= j)
}

/// Whether the key at place `k` is the greatest, and the last of those that
/// are as great.
pub open spec fn is_greatest(keys: Seq<i64>, k: int) -> bool {
    &&& 0 <= k < keys.len()
    &&& forall|j: int|
        0 <= j < keys.len() ==> keys[k] > #[trigger] keys[j] || (keys[k] == keys[j] && k >= j)
}

/// The place of the least of the keys; `None` for no keys.
fn least(keys: &Vec<i64>) -> (r: Option<usize>)
    ensures
        match r {
            Some(k) => is_least(keys@, k as int),
            None => keys@.len() == 0,
        },
{
    let mut best: Option<usize> = None;
    let mut i: usize = 0;
    while i < keys.len()
        invariant
            i <= keys.len(),
            match best {
                Some(k) => k < i && forall|j: int|
                    0 <= j < i ==> keys[k as int] < #[trigger] keys[j] || (keys[k as int] == keys[j]
                        && k <= j),
                None => i == 0,
            },
        decreases keys.len() - i,
    {
        let better = match best {
            Some(k) => keys[i] < keys[k],
            None => true,
        };
        if better {
            best = Some(i);
        }
        i += 1;
    }
    best
}

/// The place of the greatest of the keys; `None` for no keys.
fn greatest(keys: &Vec<i64>) -> (r: Option<usize>)
    ensures
        match r {
            Some(k) => is_greatest(keys@, k as int),
            None => keys@.len() == 0,
        },
{
    let mut best: Option<usize> = None;
    let mut i: usize = 0;
    while i < keys.len()
        invariant
            i <= keys.len(),
            match best {
                Some(k) => k < i && forall|j: int|
                    0 <= j < i ==> keys[k as int] > #[trigger] keys[j] || (keys[k as int] == keys[j]
                        && k >= j),
                None => i == 0,
            },
        decreases keys.len() - i,
    {
        let better = match best {
            Some(k) => keys[i] >= keys[k],
            None => true,
        };
        if better {
            best = Some(i);
        }
        i += 1;
    }
    best
}

/// The keys as numbers of the width that the ordering takes.
pub open spec fn widened(keys: Seq<i64>) -> Seq<i128> {
    keys.map_values(|k: i64| k as i128)
}

impl Units {
    /// The mean of the positions of the units, rounded down to a 4096th;
    /// `None` for no units.
    pub fn center(&self) -> (r: Option<Point2>)
        ensures
            r == if self@.len() == 0 {
                None
            } else {
                Some(
                    Point2 {
                        x: (sum_of_x(self@) / (self@.len() as int)) as i32,
                        y: (sum_of_y(self@) / (self@.len() as int)) as i32,
                    },
                )
            },
    {
        let n = self.len();
        if n == 0 {
            return None;
        }
        let mut sx: i128 = 0;
        let mut sy: i128 = 0;
        let mut i: usize = 0;
        while i < n
            invariant
                i <= n,
                n == self@.len(),
                sx == sum_of_x(self@.take(i as int)),
                sy == sum_of_y(self@.take(i as int)),
            decreases n - i,
        {
            proof {
                lemma_sums_of(self@.take(i as int));
                assert(self@.take(i + 1).drop_last() =~= self@.take(i as int));
                assert(0x8000_0000 * (i as int) <= 0x8000_0000 * 0x1_0000_0000_0000_0000)
                    by (nonlinear_arith)
                    requires
                        i <= 0x1_0000_0000_0000_0000,
                ;
            }
            match self.get_index(i) {
                Some(u) => {
                    sx = sx + u.position.x as i128;
                    sy = sy + u.position.y as i128;
                },
                None => {},
            }
            i += 1;
        }
        proof {
            assert(self@.take(n as int) =~= self@);
            lemma_sums_of(self@);
            let len = n as int;
            assert(-0x8000_0000 <= sum_of_x(self@) / len <= 0x7fff_ffff) by (nonlinear_arith)
                requires
                    len > 0,
                    -0x8000_0000 * len <= sum_of_x(self@) <= 0x7fff_ffff * len,
            ;
            assert(-0x8000_0000 <= sum_of_y(self@) / len <= 0x7fff_ffff) by (nonlinear_arith)
                requires
                    len > 0,
                    -0x8000_0000 * len <= sum_of_y(self@) <= 0x7fff_ffff * len,
            ;
            assert(0x8000_0000 * len <= 0x8000_0000 * 0x1_0000_0000_0000_0000) by (nonlinear_arith)
                requires
                    len <= 0x1_0000_0000_0000_0000,
            ;
        }
        let qx = crate::geometry::quotient(sx, n as i128);
        let qy = crate::geometry::quotient(sy, n as i128);
        Some(Point2 { x: qx as i32, y: qy as i32 })
    }

    /// The place of the unit nearest to `target`; `None` for no units.
    pub fn closest_index(&self, target: Point2) -> (r: Option<usize>)
        ensures
            match r {
                Some(k) => is_closest(self@, k as int, target),
                None => self@.len() == 0,
            },
    {
        let n = self.len();
        let mut best: Option<(usize, i128)> = None;
        let mut i: usize = 0;
        while i < n
            invariant
                i <= n,
                n == self@.len(),
                match best {
                    Some((k, d)) => k < i && d == dist2(self@[k as int].position, target) && forall|
                        j: int,
                    |
                        0 <= j < i ==> d < dist2((#[trigger] self@[j]).position, target) || (d
                            == dist2(self@[j].position, target) && k <= j),
                    None => i == 0,
                },
            decreases n - i,
        {
            match self.get_index(i) {
                Some(u) => {
                    let d = u.position.distance_squared(target);
                    let better = match best {
                        Some((_, least)) => d < least,
                        None => true,
                    };
                    if better {
                        best = Some((i, d));
                    }
                },
                None => {},
            }
            i += 1;
        }
        match best {
            Some((k, _)) => Some(k),
            None => None,
        }
    }

    /// The place of the unit furthest from `target`; `None` for no units.
    pub fn furthest_index(&self, target: Point2) -> (r: Option<usize>)
        ensures
            match r {
                Some(k) => is_furthest(self@, k as int, target),
                None => self@.len() == 0,
            },
    {
        let n = self.len();
        let mut best: Option<(usize, i128)> = None;
        let mut i: usize = 0;
        while i < n
            invariant
                i <= n,
                n == self@.len(),
                match best {
                    Some((k, d)) => k < i && d == dist2(self@[k as int].position, target) && forall|
                        j: int,
                    |
                        0 <= j < i ==> d > dist2((#[trigger] self@[j]).position, target) || (d
                            == dist2(self@[j].position, target) && k >= j),
                    None => i == 0,
                },
            decreases n - i,
        {
            match self.get_index(i) {
                Some(u) => {
                    let d = u.position.distance_squared(target);
                    let better = match best {
                        Some((_, most)) => d >= most,
                        None => true,
                    };
                    if better {
                        best = Some((i, d));
                    }
                },
                None => {},
            }
            i += 1;
        }
        match best {
            Some((k, _)) => Some(k),
            None => None,
        }
    }

    /// The unit nearest to `target`, the first of those that are as near;
    /// `None` for no units.
    pub fn closest(&self, target: Point2) -> (r: Option<&Unit>)
        ensures
            match r {
                Some(u) => exists|k: int| is_closest(self@, k, target) && u@ == self@[k],
                None => self@.len() == 0,
            },
    {
        match self.closest_index(target) {
            Some(k) => {
                let u = self.get_index(k);
                assert(is_closest(self@, k as int, target));
                u
            },
            None => None,
        }
    }

    /// The unit furthest from `target`, the last of those that are as far;
    /// `None` for no units.
    pub fn furthest(&self, target: Point2) -> (r: Option<&Unit>)
        ensures
            match r {
                Some(u) => exists|k: int| is_furthest(self@, k, target) && u@ == self@[k],
                None => self@.len() == 0,
            },
    {
        match self.furthest_index(target) {
            Some(k) => {
                let u = self.get_index(k);
                assert(is_furthest(self@, k as int, target));
                u
            },
            None => None,
        }
    }

    /// Square of the distance from `target` to the nearest unit; `None` for
    /// no units.
    pub fn closest_distance_squared(&self, target: Point2) -> (r: Option<i128>)
        ensures
            match r {
                Some(d) => exists|k: int|
                    is_closest(self@, k, target) && d == dist2(self@[k].position, target),
                None => self@.len() == 0,
            },
    {
        match self.closest(target) {
            Some(u) => Some(u.position.distance_squared(target)),
            None => None,
        }
    }

    /// Square of the distance from `target` to the furthest unit; `None` for
    /// no units.
    pub fn furthest_distance_squared(&self, target: Point2) -> (r: Option<i128>)
        ensures
            match r {
                Some(d) => exists|k: int|
                    is_furthest(self@, k, target) && d == dist2(self@[k].position, target),
                None => self@.len() == 0,
            },
    {
        match self.furthest(target) {
            Some(u) => Some(u.position.distance_squared(target)),
            None => None,
        }
    }

    /// The distance from `target` to the nearest unit, rounded down to a
    /// 4096th; `None` for no units.
    pub fn closest_distance(&self, target: Point2) -> (r: Option<i64>)
        ensures
            match r {
                Some(d) => exists|k: int|
                    is_closest(self@, k, target) && is_root(
                        dist2(self@[k].position, target),
                        d as int,
                    ),
                None => self@.len() == 0,
            },
    {
        match self.closest(target) {
            Some(u) => Some(u.position.distance(target)),
            None => None,
        }
    }

    /// The distance from `target` to the furthest unit, rounded down to a
    /// 4096th; `None` for no units.
    pub fn furthest_distance(&self, target: Point2) -> (r: Option<i64>)
        ensures
            match r {
                Some(d) => exists|k: int|
                    is_furthest(self@, k, target) && is_root(
                        dist2(self@[k].position, target),
                        d as int,
                    ),
                None => self@.len() == 0,
            },
    {
        match self.furthest(target) {
            Some(u) => Some(u.position.distance(target)),
            None => None,
        }
    }

    /// The numbers that `f` gives for the units, in their order.
    pub fn keys<F: Fn(&Unit) -> i64>(&self, f: &F) -> (keys: Vec<i64>)
        requires
            forall|u: &Unit| #[trigger] f.requires((u,)),
        ensures
            keys_of(*f, self.units(), keys@),
            keys@.len() == self@.len(),
    {
        let mut keys: Vec<i64> = Vec::new();
        let n = self.len();
        let mut i: usize = 0;
        while i < n
            invariant
                i <= n,
                n == self@.len(),
                keys.len() == i,
                forall|u: &Unit| #[trigger] f.requires((u,)),
                forall|j: int| 0 <= j < i ==> f.ensures((&#[trigger] self.units()[j],), keys[j]),
            decreases n - i,
        {
            match self.get_index(i) {
                Some(u) => {
                    let k = f(u);
                    keys.push(k);
                },
                None => {},
            }
            i += 1;
        }
        proof {
            self.lemma_len();
        }
        keys
    }

    /// Sum of the numbers that `f` gives for the units.
    pub fn sum<F: Fn(&Unit) -> i64>(&self, f: F) -> (r: i128)
        requires
            forall|u: &Unit| #[trigger] f.requires((u,)),
        ensures
            exists|keys: Seq<i64>| keys_of(f, self.units(), keys) && r == #[trigger] total(keys),
    {
        let keys = self.keys(&f);
        let mut r: i128 = 0;
        let mut i: usize = 0;
        while i < keys.len()
            invariant
                i <= keys.len(),
                r == total(keys@.take(i as int)),
            decreases keys.len() - i,
        {
            proof {
                lemma_total(keys@.take(i as int));
                assert(keys@.take(i + 1).drop_last() =~= keys@.take(i as int));
                assert(0x8000_0000_0000_0000 * (i as int) <= 0x8000_0000_0000_0000
                    * 0x1_0000_0000_0000_0000) by (nonlinear_arith)
                    requires
                        i <= 0x1_0000_0000_0000_0000,
                ;
            }
            r = r + keys[i] as i128;
            i += 1;
        }
        assert(keys@.take(keys.len() as int) =~= keys@);
        r
    }

    /// The place of the unit for which `f` gives the least number, the first
    /// of those for which it gives the same; `None` for no units.
    pub fn min_index<F: Fn(&Unit) -> i64>(&self, f: F) -> (r: Option<usize>)
        requires
            forall|u: &Unit| #[trigger] f.requires((u,)),
        ensures
            exists|keys: Seq<i64>|
                #[trigger] keys_of(f, self.units(), keys) && match r {
                    Some(k) => is_least(keys, k as int),
                    None => keys.len() == 0,
                },
    {
        let keys = self.keys(&f);
        let best = least(&keys);
        assert(keys_of(f, self.units(), keys@));
        best
    }

    /// The place of the unit for which `f` gives the greatest number, the
    /// last of those for which it gives the same; `None` for no units.
    pub fn max_index<F: Fn(&Unit) -> i64>(&self, f: F) -> (r: Option<usize>)
        requires
            forall|u: &Unit| #[trigger] f.requires((u,)),
        ensures
            exists|keys: Seq<i64>|
                #[trigger] keys_of(f, self.units(), keys) && match r {
                    Some(k) => is_greatest(keys, k as int),
                    None => keys.len() == 0,
                },
    {
        let keys = self.keys(&f);
        let best = greatest(&keys);
        assert(keys_of(f, self.units(), keys@));
        best
    }

    /// The unit for which `f` gives the least number, the first of those
    /// for which it gives the same; `None` for no units.
    pub fn min<F: Fn(&Unit) -> i64>(&self, f: F) -> (r: Option<&Unit>)
        requires
            forall|u: &Unit| #[trigger] f.requires((u,)),
        ensures
            exists|keys: Seq<i64>|
                #[trigger] keys_of(f, self.units(), keys) && match r {
                    Some(u) => exists|k: int|
                        is_least(keys, k) && *u == self.units()[k] && u@ == self@[k],
                    None => keys.len() == 0,
                },
    {
        let keys = self.keys(&f);
        let r = match least(&keys) {
            Some(k) => {
                let u = self.get_index(k);
                assert(is_least(keys@, k as int));
                u
            },
            None => None,
        };
        assert(keys_of(f, self.units(), keys@));
        r
    }

    /// The least number that `f` gives for a unit; `None` for no units.
    pub fn min_value<F: Fn(&Unit) -> i64>(&self, f: F) -> (r: Option<i64>)
        requires
            forall|u: &Unit| #[trigger] f.requires((u,)),
        ensures
            exists|keys: Seq<i64>|
                #[trigger] keys_of(f, self.units(), keys) && match r {
                    Some(v) => exists|k: int| is_least(keys, k) && v == keys[k],
                    None => keys.len() == 0,
                },
    {
        let keys = self.keys(&f);
        let r = match least(&keys) {
            Some(k) => {
                assert(is_least(keys@, k as int));
                Some(keys[k])
            },
            None => None,
        };
        assert(keys_of(f, self.units(), keys@));
        r
    }

    /// The unit for which `f` gives the greatest number, the last of those
    /// for which it gives the same; `None` for no units.
    pub fn max<F: Fn(&Unit) -> i64>(&self, f: F) -> (r: Option<&Unit>)
        requires
            forall|u: &Unit| #[trigger] f.requires((u,)),
        ensures
            exists|keys: Seq<i64>|
                #[trigger] keys_of(f, self.units(), keys) && match r {
                    Some(u) => exists|k: int|
                        is_greatest(keys, k) && *u == self.units()[k] && u@ == self@[k],
                    None => keys.len() == 0,
                },
    {
        let keys = self.keys(&f);
        let r = match greatest(&keys) {
            Some(k) => {
                let u = self.get_index(k);
                assert(is_greatest(keys@, k as int));
                u
            },
            None => None,
        };
        assert(keys_of(f, self.units(), keys@));
        r
    }

    /// The greatest number that `f` gives for a unit; `None` for no units.
    pub fn max_value<F: Fn(&Unit) -> i64>(&self, f: F) -> (r: Option<i64>)
        requires
            forall|u: &Unit| #[trigger] f.requires((u,)),
        ensures
            exists|keys: Seq<i64>|
                #[trigger] keys_of(f, self.units(), keys) && match r {
                    Some(v) => exists|k: int| is_greatest(keys, k) && v == keys[k],
                    None => keys.len() == 0,
                },
    {
        let keys = self.keys(&f);
        let r = match greatest(&keys) {
            Some(k) => {
                assert(is_greatest(keys@, k as int));
                Some(keys[k])
            },
            None => None,
        };
        assert(keys_of(f, self.units(), keys@));
        r
    }

    /// The units in the order of the numbers that `f` gives for them, the
    /// least first; units for which it gives the same keep their order.
    pub fn sorted<F: Fn(&Unit) -> i64>(&self, f: F) -> (r: Units)
        requires
            self.wf(),
            forall|u: &Unit| #[trigger] f.requires((u,)),
        ensures
            r.wf(),
            r@.len() == self@.len(),
            exists|keys: Seq<i64>|
                #[trigger] keys_of(f, self.units(), keys) && forall|i: int|
                    0 <= i < r@.len() ==> #[trigger] r@[i] == self@[rising_order(
                        widened(keys),
                        keys.len(),
                    )[i] as int],
    {
        let keys = self.keys(&f);
        let mut wide: Vec<i128> = Vec::new();
        let mut i: usize = 0;
        while i < keys.len()
            invariant
                i <= keys.len(),
                wide@ == widened(keys@.take(i as int)),
            decreases keys.len() - i,
        {
            wide.push(keys[i] as i128);
            assert(widened(keys@.take(i + 1)) =~= widened(keys@.take(i as int)).push(
                keys@[i as int] as i128,
            ));
            i += 1;
        }
        assert(keys@.take(keys.len() as int) =~= keys@);
        let order = sorted_order(&wide);
        proof {
            crate::order::lemma_rising_order(wide@, wide@.len());
            assert forall|j: int| 0 <= j < order.len() implies (#[trigger] order[j]) < self@.len() by {
                assert(order@.contains(order@[j]));
            }
            self.lemma_wf();
        }
        let mut v: Vec<Unit> = Vec::new();
        let mut i: usize = 0;
        while i < order.len()
            invariant
                i <= order.len(),
                order.len() == self@.len(),
                v.len() == i,
                forall|j: int| 0 <= j < order.len() ==> (#[trigger] order[j]) < self@.len(),
                forall|j: int| 0 <= j < i ==> (#[trigger] v[j])@ == self@[order[j] as int],
            decreases order.len() - i,
        {
            match self.get_index(order[i]) {
                Some(u) => {
                    v.push(u.clone());
                },
                None => {},
            }
            i += 1;
        }
        proof {
            let target = views_of(v@);
            assert forall|a: int, b: int| 0 <= a < b < target.len() implies (#[trigger] target[a]).tag != (
            #[trigger] target[b]).tag by {
                assert(order@[a] != order@[b]);
                let x = order@[a] as int;
                let y = order@[b] as int;
                if x < y {
                    assert(self@[x].tag != self@[y].tag);
                } else {
                    assert(self@[y].tag != self@[x].tag);
                }
            }
            lemma_extended_distinct(target);
            assert(keys_of(f, self.units(), keys@));
        }
        Units::from_vec(v)
    }

    /// Puts the units in the order of the numbers that `f` gives for them;
    /// see [`Units::sorted`].
    pub fn sort<F: Fn(&Unit) -> i64>(&mut self, f: F)
        requires
            old(self).wf(),
            forall|u: &Unit| #[trigger] f.requires((u,)),
        ensures
            final(self).wf(),
            final(self)@.len() == old(self)@.len(),
            exists|keys: Seq<i64>|
                #[trigger] keys_of(f, old(self).units(), keys) && forall|i: int|
                    0 <= i < final(self)@.len() ==> #[trigger] final(self)@[i] == old(
                        self,
                    )@[rising_order(widened(keys), keys.len())[i] as int],
    {
        let r = self.sorted(f);
        *self = r;
    }
}

/// Sum of the numbers.
pub open spec fn total(keys: Seq<i64>) -> int
    decreases keys.len(),
{
    if keys.len() == 0 {
        0
    } else {
        total(keys.drop_last()) + keys.last()
    }
}

proof fn lemma_total(keys: Seq<i64>)
    ensures
        -0x8000_0000_0000_0000 * keys.len() <= total(keys) <= 0x8000_0000_0000_0000 * keys.len(),
    decreases keys.len(),
{
    if keys.len() > 0 {
        lemma_total(keys.drop_last());
        assert(0x8000_0000_0000_0000 * keys.len() == 0x8000_0000_0000_0000 * (keys.len() - 1)
            + 0x8000_0000_0000_0000) by (nonlinear_arith);
        assert(-0x8000_0000_0000_0000 * keys.len() == -0x8000_0000_0000_0000 * (keys.len() - 1)
            - 0x8000_0000_0000_0000) by (nonlinear_arith);
    }
}

} // verus!
