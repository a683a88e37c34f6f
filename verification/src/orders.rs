//! What a unit is doing, and giving it something to do.
use vstd::prelude::*;
use crate::action::{autocast_key, with_tag, Commander, CommandKey, Target};
use crate::container::Container;
use crate::game_data::{Attribute, GameData};
use crate::geometry::{quotient, Point2, SCALE};
use crate::ids::{AbilityId, UnitTypeId, UpgradeId};
use crate::tags::{TagMap, TagSet};
use crate::unit::{Unit, UnitView};
use crate::weapons::attributes_of;

verus! {

/// Whether a list of abilities holds `a`.
pub open spec fn has_ability_in(abilities: Seq<AbilityId>, a: AbilityId) -> bool {
    exists|i: int| 0 <= i < abilities.len() && abilities[i] == a
}

/// Checks if a list of abilities holds `a`.
pub fn contains_ability(abilities: &[AbilityId], a: AbilityId) -> (r: bool)
    ensures
        r == has_ability_in(abilities@, a),
{
    let mut i: usize = 0;
    while i < abilities.len()
        invariant
            i <= abilities.len(),
            forall|j: int| 0 <= j < i ==> abilities@[j] != a,
        decreases abilities.len() - i,
    {
        if abilities[i] == a {
            return true;
        }
        i += 1;
    }
    false
}

/// The quotient of two numbers in 4096ths, rounded down; `None` where the
/// second is nothing.
pub open spec fn share(current: u32, max: u32) -> Option<u64> {
    if max == 0 {
        None
    } else {
        Some((current as int * SCALE / (max as int)) as u64)
    }
}

/// The quotient of two numbers in 4096ths; see [`share`].
pub fn share_of(current: u32, max: u32) -> (r: Option<u64>)
    ensures
        r == share(current, max),
{
    if max == 0 {
        None
    } else {
        let p: u64 = (current as u64) * (SCALE as u64);
        proof {
            assert(0 <= (p as int) / (max as int) <= p) by (nonlinear_arith)
                requires
                    p >= 0,
                    max >= 1,
            ;
        }
        Some(p / (max as u64))
    }
}

/// The abilities listed for the tag; `None` where none are listed. Of two
/// entries for a tag the first counts.
pub open spec fn abilities_in(list: Seq<(u64, Vec<AbilityId>)>, tag: u64) -> Option<Seq<AbilityId>>
    decreases list.len(),
{
    if list.len() == 0 {
        None
    } else if list[0].0 == tag {
        Some(list[0].1@)
    } else {
        abilities_in(list.skip(1), tag)
    }
}

/// How much of the longest time between two shots the weapon still has to
/// wait, in 4096ths, rounded down; `None` where one of the two is unknown
/// or the longest time is nothing.
pub open spec fn cooldown_share(current: Option<i32>, max: Option<i32>) -> Option<int> {
    match (current, max) {
        (Some(c), Some(m)) => if m > 0 {
            Some(c * SCALE / (m as int))
        } else if m < 0 {
            Some((-c) * SCALE / (-m))
        } else {
            None
        },
        _ => None,
    }
}

impl UnitView {
    /// The ability of the unit's first order; `None` for a unit without
    /// orders.
    pub open spec fn ordered_ability(self) -> Option<AbilityId> {
        if self.orders.len() > 0 {
            Some(self.orders[0].ability)
        } else {
            None
        }
    }

    /// The target of the unit's first order; nowhere for a unit without
    /// orders.
    pub open spec fn target(self) -> Target {
        if self.orders.len() > 0 {
            self.orders[0].target
        } else {
            Target::Nowhere
        }
    }

    /// Whether the unit has no orders, or one that is at least 95% done.
    pub open spec fn is_almost_idle(self) -> bool {
        self.orders.len() == 0 || (self.orders.len() == 1 && self.orders[0].progress * 100 >= 95
            * SCALE)
    }

    /// Whether the unit gathers or returns resources, as a worker of its
    /// type does.
    pub open spec fn is_collecting(self) -> bool {
        match self.ordered_ability() {
            Some(a) => match self.type_id {
                UnitTypeId::SCV => a == AbilityId::HarvestGatherSCV || a
                    == AbilityId::HarvestReturnSCV,
                UnitTypeId::MULE => a == AbilityId::HarvestGatherMule || a
                    == AbilityId::HarvestReturnMule,
                UnitTypeId::Drone => a == AbilityId::HarvestGatherDrone || a
                    == AbilityId::HarvestReturnDrone,
                UnitTypeId::Probe => a == AbilityId::HarvestGatherProbe || a
                    == AbilityId::HarvestReturnProbe,
                _ => false,
            },
            None => false,
        }
    }

    /// Whether the building makes an add-on, as a building of its type does.
    pub open spec fn is_making_addon(self) -> bool {
        match self.ordered_ability() {
            Some(a) => match self.type_id {
                UnitTypeId::Barracks => a == AbilityId::BuildTechLabBarracks || a
                    == AbilityId::BuildReactorBarracks,
                UnitTypeId::Factory => a == AbilityId::BuildTechLabFactory || a
                    == AbilityId::BuildReactorFactory,
                UnitTypeId::Starport => a == AbilityId::BuildTechLabStarport || a
                    == AbilityId::BuildReactorStarport,
                _ => false,
            },
            None => false,
        }
    }
}

impl Unit {
    /// Health of the unit as a share of its greatest health, in 4096ths;
    /// unknown where either is unknown or the greatest is nothing.
    pub fn health_percentage(&self) -> (r: Option<u64>)
        ensures
            r == match (self@.health, self@.health_max) {
                (Some(c), Some(m)) => share(c, m),
                _ => None,
            },
    {
        match (self.health, self.health_max) {
            (Some(c), Some(m)) => share_of(c, m),
            _ => None,
        }
    }

    /// Shield of the unit as a share of its greatest shield, in 4096ths;
    /// unknown where either is unknown or the greatest is nothing.
    pub fn shield_percentage(&self) -> (r: Option<u64>)
        ensures
            r == match (self@.shield, self@.shield_max) {
                (Some(c), Some(m)) => share(c, m),
                _ => None,
            },
    {
        match (self.shield, self.shield_max) {
            (Some(c), Some(m)) => share_of(c, m),
            _ => None,
        }
    }

    /// Energy of the unit as a share of its greatest energy, in 4096ths;
    /// unknown where either is unknown or the greatest is nothing.
    pub fn energy_percentage(&self) -> (r: Option<u64>)
        ensures
            r == match (self@.energy, self@.energy_max) {
                (Some(c), Some(m)) => share(c, m),
                _ => None,
            },
    {
        match (self.energy, self.energy_max) {
            (Some(c), Some(m)) => share_of(c, m),
            _ => None,
        }
    }

    /// Hits of the unit as a share of its greatest hits, in 4096ths; unknown
    /// where either is unknown or the greatest is nothing.
    pub fn hits_percentage(&self) -> (r: Option<u64>)
        ensures
            r == match (self@.hits(), self@.hits_max()) {
                (Some(c), Some(m)) => share(c as u32, m as u32),
                _ => None,
            },
    {
        match (self.hits(), self.hits_max()) {
            (Some(c), Some(m)) => share_of(c, m),
            _ => None,
        }
    }

    /// Checks if the weapon of the unit has to wait before it can fire.
    pub fn on_cooldown(&self) -> (r: bool)
        ensures
            r == (self@.weapon_cooldown.is_some() && self@.weapon_cooldown.unwrap() > 0),
    {
        match self.weapon_cooldown {
            Some(c) => c > 0,
            None => false,
        }
    }

    /// The longest time between two shots that was seen of the unit's type.
    pub fn max_cooldown(&self, max_cooldowns: &Vec<(UnitTypeId, i32)>) -> (r: Option<i32>)
        ensures
            r == crate::upkeep::cooldown_in(max_cooldowns@, self@.type_id),
    {
        let mut i: usize = 0;
        assert(max_cooldowns@.skip(0) =~= max_cooldowns@);
        while i < max_cooldowns.len()
            invariant
                i <= max_cooldowns.len(),
                crate::upkeep::cooldown_in(max_cooldowns@, self@.type_id)
                    == crate::upkeep::cooldown_in(max_cooldowns@.skip(i as int), self@.type_id),
            decreases max_cooldowns.len() - i,
        {
            assert(max_cooldowns@.skip(i as int)[0] == max_cooldowns@[i as int]);
            assert(max_cooldowns@.skip(i as int).skip(1) =~= max_cooldowns@.skip(i + 1));
            if max_cooldowns[i].0 == self.type_id {
                return Some(max_cooldowns[i].1);
            }
            i += 1;
        }
        None
    }

    /// How much of the longest time between two shots that was seen of the
    /// unit's type its weapon still has to wait; see [`cooldown_share`].
    pub fn cooldown_percentage(&self, max_cooldowns: &Vec<(UnitTypeId, i32)>) -> (r: Option<i64>)
        ensures
            match r {
                Some(p) => cooldown_share(
                    self@.weapon_cooldown,
                    crate::upkeep::cooldown_in(max_cooldowns@, self@.type_id),
                ) == Some(p as int),
                None => cooldown_share(
                    self@.weapon_cooldown,
                    crate::upkeep::cooldown_in(max_cooldowns@, self@.type_id),
                ).is_none(),
            },
    {
        match (self.weapon_cooldown, self.max_cooldown(max_cooldowns)) {
            (Some(c), Some(m)) => {
                if m == 0 {
                    None
                } else {
                    let (a, b): (i128, i128) = if m > 0 {
                        (c as i128 * SCALE as i128, m as i128)
                    } else {
                        (-(c as i128) * SCALE as i128, -(m as i128))
                    };
                    let q = quotient(a, b);
                    proof {
                        assert(-0x1_0000_0000_0000 <= a / b <= 0x1_0000_0000_0000)
                            by (nonlinear_arith)
                            requires
                                -0x1_0000_0000_0000 <= a <= 0x1_0000_0000_0000,
                                b >= 1,
                        ;
                    }
                    Some(q as i64)
                }
            },
            _ => None,
        }
    }

    /// The abilities that the unit can use now, as far as the list tells;
    /// see [`abilities_in`].
    pub fn abilities<'a>(&self, available: &'a Vec<(u64, Vec<AbilityId>)>) -> (r: Option<
        &'a Vec<AbilityId>,
    >)
        ensures
            match r {
                Some(a) => abilities_in(available@, self@.tag) == Some(a@),
                None => abilities_in(available@, self@.tag).is_none(),
            },
    {
        let mut i: usize = 0;
        assert(available@.skip(0) =~= available@);
        while i < available.len()
            invariant
                i <= available.len(),
                abilities_in(available@, self@.tag) == abilities_in(
                    available@.skip(i as int),
                    self@.tag,
                ),
            decreases available.len() - i,
        {
            assert(available@.skip(i as int)[0] == available@[i as int]);
            assert(available@.skip(i as int).skip(1) =~= available@.skip(i + 1));
            if available[i].0 == self.tag {
                return Some(&available[i].1);
            }
            i += 1;
        }
        None
    }

    /// Checks if the unit can use the ability now, as far as the list
    /// tells.
    pub fn has_ability(&self, ability: AbilityId, available: &Vec<(u64, Vec<AbilityId>)>) -> (r:
        bool)
        ensures
            r == match abilities_in(available@, self@.tag) {
                Some(a) => has_ability_in(a, ability),
                None => false,
            },
    {
        match self.abilities(available) {
            Some(a) => contains_ability(a.as_slice(), ability),
            None => false,
        }
    }

    /// The attributes of the unit's type; none where the rules do not know
    /// the type.
    pub fn attributes<'a>(&self, data: &'a GameData) -> (r: &'a [Attribute])
        ensures
            r@ == attributes_of(self@, data),
    {
        match data.unit(self.type_id) {
            Some(d) => d.attributes.as_slice(),
            None => {
                let r: &[Attribute] = &[];
                assert(r@ =~= Seq::<Attribute>::empty());
                r
            },
        }
    }

    /// Checks if the add-on of the building is a tech lab.
    pub fn has_techlab(&self, techlab_tags: &TagSet) -> (r: bool)
        ensures
            r == (self@.addon_tag.is_some() && techlab_tags@.contains(self@.addon_tag.unwrap())),
    {
        match self.addon_tag {
            Some(tag) => techlab_tags.contains(tag),
            None => false,
        }
    }

    /// Checks if the add-on of the building is a reactor.
    pub fn has_reactor(&self, reactor_tags: &TagSet) -> (r: bool)
        ensures
            r == (self@.addon_tag.is_some() && reactor_tags@.contains(self@.addon_tag.unwrap())),
    {
        match self.addon_tag {
            Some(tag) => reactor_tags.contains(tag),
            None => false,
        }
    }

    /// For how many steps of the game the unit has been known, at the step
    /// `game_loop`; `0` for a unit of which no first sighting is noted.
    pub fn time_alive(&self, last_units_seen: &TagMap, game_loop: u32) -> (r: u32)
        ensures
            r == if last_units_seen@.contains_key(self@.tag) {
                if game_loop >= last_units_seen@[self@.tag] {
                    (game_loop - last_units_seen@[self@.tag]) as u32
                } else {
                    0
                }
            } else {
                0
            },
    {
        match last_units_seen.get(self.tag) {
            Some(seen) => game_loop.saturating_sub(seen),
            None => 0,
        }
    }

    /// Checks if the unit is left alone at the step `game_loop`: a step
    /// until which it is left alone is noted, and the game has not reached it.
    pub fn is_sleeping(&self, available_frames: &TagMap, game_loop: u32) -> (r: bool)
        ensures
            r == (available_frames@.contains_key(self@.tag) && game_loop
                < available_frames@[self@.tag]),
    {
        match available_frames.get(self.tag) {
            Some(frame) => game_loop < frame,
            None => false,
        }
    }

    /// Leaves the unit alone for `duration` steps of the game from the step
    /// `game_loop`, or to the last step that can be told.
    pub fn sleep(&self, available_frames: &mut TagMap, game_loop: u32, duration: u32)
        ensures
            final(available_frames)@ == old(available_frames)@.insert(
                self@.tag,
                if game_loop + duration > u32::MAX {
                    u32::MAX
                } else {
                    (game_loop + duration) as u32
                },
            ),
    {
        available_frames.insert(self.tag, game_loop.saturating_add(duration));
    }

    /// Half the width of the building that the unit is, in 4096ths; `None`
    /// where the rules do not say.
    pub fn footprint_radius(&self, data: &GameData) -> (r: Option<i32>)
        ensures
            r == match data.spec_unit(self@.type_id) {
                Some(d) => match d.ability {
                    Some(a) => match data.spec_ability(a) {
                        Some(ad) => ad.footprint_radius,
                        None => None,
                    },
                    None => None,
                },
                None => None,
            },
    {
        match data.unit(self.type_id) {
            Some(d) => match d.ability {
                Some(a) => match data.ability(a) {
                    Some(ad) => ad.footprint_radius,
                    None => None,
                },
                None => None,
            },
            None => None,
        }
    }

    /// Width of the building in cells: `2` for an add-on, else twice the
    /// footprint radius, rounded down; `None` where the rules do not say.
    pub fn building_size(&self, data: &GameData) -> (r: Option<usize>)
        ensures
            r == if self@.type_id.spec_is_addon() {
                Some(2usize)
            } else {
                match data.spec_unit(self@.type_id) {
                    Some(d) => match d.ability {
                        Some(a) => match data.spec_ability(a) {
                            Some(ad) => match ad.footprint_radius {
                                Some(radius) => Some(
                                    if radius <= 0 {
                                        0usize
                                    } else {
                                        (radius * 2 / (SCALE as int)) as usize
                                    },
                                ),
                                None => None,
                            },
                            None => None,
                        },
                        None => None,
                    },
                    None => None,
                }
            },
    {
        if self.type_id.is_addon() {
            Some(2)
        } else {
            match self.footprint_radius(data) {
                Some(radius) => Some(
                    if radius <= 0 {
                        0
                    } else {
                        ((radius as i64) * 2 / (SCALE as i64)) as usize
                    },
                ),
                None => None,
            }
        }
    }

    /// The ability, the target and the progress of the unit's first order;
    /// `None` for a unit without orders.
    pub fn order(&self) -> (r: Option<(AbilityId, Target, i32)>)
        ensures
            r == if self@.orders.len() > 0 {
                Some(
                    (self@.orders[0].ability, self@.orders[0].target, self@.orders[0].progress),
                )
            } else {
                None
            },
    {
        if self.orders.len() > 0 {
            Some((self.orders[0].ability, self.orders[0].target, self.orders[0].progress))
        } else {
            None
        }
    }

    /// The target of the unit's first order; nowhere for a unit without
    /// orders.
    pub fn target(&self) -> (r: Target)
        ensures
            r == self@.target(),
    {
        if self.orders.len() > 0 {
            self.orders[0].target
        } else {
            Target::Nowhere
        }
    }

    /// The point that the unit's first order aims at, if it aims at a point.
    pub fn target_pos(&self) -> (r: Option<Point2>)
        ensures
            r == match self@.target() {
                Target::Pos(p) => Some(p),
                _ => None,
            },
    {
        match self.target() {
            Target::Pos(p) => Some(p),
            _ => None,
        }
    }

    /// The tag of the unit that the unit's first order aims at, if it aims
    /// at a unit.
    pub fn target_tag(&self) -> (r: Option<u64>)
        ensures
            r == match self@.target() {
                Target::Tag(t) => Some(t),
                _ => None,
            },
    {
        match self.target() {
            Target::Tag(t) => Some(t),
            _ => None,
        }
    }

    /// The ability of the unit's first order; `None` for a unit without
    /// orders.
    pub fn ordered_ability(&self) -> (r: Option<AbilityId>)
        ensures
            r == self@.ordered_ability(),
    {
        if self.orders.len() > 0 {
            Some(self.orders[0].ability)
        } else {
            None
        }
    }

    /// Checks if the unit has no orders.
    pub fn is_idle(&self) -> (r: bool)
        ensures
            r == (self@.orders.len() == 0),
    {
        self.orders.len() == 0
    }

    /// Checks if the unit has no orders, or one that is at least 95% done.
    pub fn is_almost_idle(&self) -> (r: bool)
        ensures
            r == self@.is_almost_idle(),
    {
        self.orders.len() == 0 || (self.orders.len() == 1 && (self.orders[0].progress as i64)
            * 100 >= 95 * (SCALE as i64))
    }

    /// Checks if the building can take an order: it has none, or with a
    /// reactor fewer than two.
    pub fn is_unused(&self, reactor_tags: &TagSet) -> (r: bool)
        ensures
            r == if self@.addon_tag.is_some() && reactor_tags@.contains(self@.addon_tag.unwrap()) {
                self@.orders.len() < 2
            } else {
                self@.orders.len() == 0
            },
    {
        if self.has_reactor(reactor_tags) {
            self.orders.len() < 2
        } else {
            self.is_idle()
        }
    }

    /// Checks if the building can take an order soon: with a reactor it has
    /// fewer than two, or two of which one is at least 95% done; without, it
    /// is almost idle.
    pub fn is_almost_unused(&self, reactor_tags: &TagSet) -> (r: bool)
        ensures
            r == if self@.addon_tag.is_some() && reactor_tags@.contains(self@.addon_tag.unwrap()) {
                self@.orders.len() < 2 || (self@.orders.len() == 2 && (self@.orders[0].progress
                    * 100 >= 95 * SCALE || self@.orders[1].progress * 100 >= 95 * SCALE))
            } else {
                self@.is_almost_idle()
            },
    {
        if self.has_reactor(reactor_tags) {
            self.orders.len() < 2 || (self.orders.len() == 2 && ((self.orders[0].progress as i64)
                * 100 >= 95 * (SCALE as i64) || (self.orders[1].progress as i64) * 100 >= 95
                * (SCALE as i64)))
        } else {
            self.is_almost_idle()
        }
    }

    /// Checks if the unit's first order uses the ability.
    pub fn is_using(&self, ability: AbilityId) -> (r: bool)
        ensures
            r == (self@.ordered_ability() == Some(ability)),
    {
        match self.ordered_ability() {
            Some(a) => a == ability,
            None => false,
        }
    }

    /// Checks if the unit's first order uses one of the abilities.
    pub fn is_using_any<A: Container<AbilityId>>(&self, abilities: &A) -> (r: bool)
        ensures
            r == match self@.ordered_ability() {
                Some(a) => abilities.holds(a),
                None => false,
            },
    {
        match self.ordered_ability() {
            Some(a) => abilities.contains(&a),
            None => false,
        }
    }

    /// Checks if the unit attacks.
    pub fn is_attacking(&self) -> (r: bool)
        ensures
            r == match self@.ordered_ability() {
                Some(a) => a == AbilityId::Attack || a == AbilityId::AttackAttack || a
                    == AbilityId::AttackAttackTowards || a == AbilityId::AttackAttackBarrage || a
                    == AbilityId::ScanMove,
                None => false,
            },
    {
        match self.ordered_ability() {
            Some(a) => matches!(
                a,
                AbilityId::Attack | AbilityId::AttackAttack | AbilityId::AttackAttackTowards
                    | AbilityId::AttackAttackBarrage | AbilityId::ScanMove
            ),
            None => false,
        }
    }

    /// Checks if the unit moves.
    pub fn is_moving(&self) -> (r: bool)
        ensures
            r == (self@.ordered_ability() == Some(AbilityId::MoveMove)),
    {
        self.is_using(AbilityId::MoveMove)
    }

    /// Checks if the unit patrols.
    pub fn is_patrolling(&self) -> (r: bool)
        ensures
            r == (self@.ordered_ability() == Some(AbilityId::Patrol)),
    {
        self.is_using(AbilityId::Patrol)
    }

    /// Checks if the unit repairs.
    pub fn is_repairing(&self) -> (r: bool)
        ensures
            r == (self@.ordered_ability() == Some(AbilityId::EffectRepairSCV)
                || self@.ordered_ability() == Some(AbilityId::EffectRepairMule)),
    {
        self.is_using(AbilityId::EffectRepairSCV) || self.is_using(AbilityId::EffectRepairMule)
    }

    /// Checks if the worker is on its way to gather.
    pub fn is_gathering(&self) -> (r: bool)
        ensures
            r == match self@.ordered_ability() {
                Some(a) => a == AbilityId::HarvestGatherSCV || a == AbilityId::HarvestGatherMule || a
                    == AbilityId::HarvestGatherDrone || a == AbilityId::HarvestGatherProbe,
                None => false,
            },
    {
        match self.ordered_ability() {
            Some(a) => matches!(
                a,
                AbilityId::HarvestGatherSCV | AbilityId::HarvestGatherMule
                    | AbilityId::HarvestGatherDrone | AbilityId::HarvestGatherProbe
            ),
            None => false,
        }
    }

    /// Checks if the worker is on its way back with what it gathered.
    pub fn is_returning(&self) -> (r: bool)
        ensures
            r == match self@.ordered_ability() {
                Some(a) => a == AbilityId::HarvestReturnSCV || a == AbilityId::HarvestReturnMule || a
                    == AbilityId::HarvestReturnDrone || a == AbilityId::HarvestReturnProbe,
                None => false,
            },
    {
        match self.ordered_ability() {
            Some(a) => matches!(
                a,
                AbilityId::HarvestReturnSCV | AbilityId::HarvestReturnMule
                    | AbilityId::HarvestReturnDrone | AbilityId::HarvestReturnProbe
            ),
            None => false,
        }
    }

    /// Checks if the worker gathers or returns resources, as a worker of its
    /// type does.
    pub fn is_collecting(&self) -> (r: bool)
        ensures
            r == self@.is_collecting(),
    {
        match self.ordered_ability() {
            Some(a) => match self.type_id {
                UnitTypeId::SCV => matches!(
                    a,
                    AbilityId::HarvestGatherSCV | AbilityId::HarvestReturnSCV
                ),
                UnitTypeId::MULE => matches!(
                    a,
                    AbilityId::HarvestGatherMule | AbilityId::HarvestReturnMule
                ),
                UnitTypeId::Drone => matches!(
                    a,
                    AbilityId::HarvestGatherDrone | AbilityId::HarvestReturnDrone
                ),
                UnitTypeId::Probe => matches!(
                    a,
                    AbilityId::HarvestGatherProbe | AbilityId::HarvestReturnProbe
                ),
                _ => false,
            },
            None => false,
        }
    }

    /// Checks if the worker is on its way to place a building: it is a
    /// worker, and the rules say that its first order places a building.
    pub fn is_constructing(&self, data: &GameData) -> (r: bool)
        ensures
            r == match self@.ordered_ability() {
                Some(a) => self@.type_id.spec_is_worker() && crate::census::places_building(data, a),
                None => false,
            },
    {
        match self.ordered_ability() {
            Some(a) => self.type_id.is_worker() && match data.ability(a) {
                Some(d) => d.is_building,
                None => false,
            },
            None => false,
        }
    }

    /// Checks if the unit's first order makes a unit of one of the types.
    pub fn is_constructing_any(&self, unit_types: &Vec<UnitTypeId>, data: &GameData) -> (r: bool)
        ensures
            r == exists|i: int|
                0 <= i < unit_types@.len() && self@.makes(data, #[trigger] unit_types@[i]),
    {
        let mut i: usize = 0;
        while i < unit_types.len()
            invariant
                i <= unit_types.len(),
                forall|j: int| 0 <= j < i ==> !self@.makes(data, #[trigger] unit_types@[j]),
            decreases unit_types.len() - i,
        {
            let made = match data.unit(unit_types[i]) {
                Some(d) => match d.ability {
                    Some(a) => self.is_using(a),
                    None => false,
                },
                None => false,
            };
            if made {
                return true;
            }
            i += 1;
        }
        false
    }

    /// Checks if the building makes an add-on, as a building of its type
    /// does.
    pub fn is_making_addon(&self) -> (r: bool)
        ensures
            r == self@.is_making_addon(),
    {
        match self.ordered_ability() {
            Some(a) => match self.type_id {
                UnitTypeId::Barracks => matches!(
                    a,
                    AbilityId::BuildTechLabBarracks | AbilityId::BuildReactorBarracks
                ),
                UnitTypeId::Factory => matches!(
                    a,
                    AbilityId::BuildTechLabFactory | AbilityId::BuildReactorFactory
                ),
                UnitTypeId::Starport => matches!(
                    a,
                    AbilityId::BuildTechLabStarport | AbilityId::BuildReactorStarport
                ),
                _ => false,
            },
            None => false,
        }
    }

    /// Checks if the building makes a tech lab.
    pub fn is_making_techlab(&self) -> (r: bool)
        ensures
            r == match self@.ordered_ability() {
                Some(a) => a == AbilityId::BuildTechLabBarracks || a
                    == AbilityId::BuildTechLabFactory || a == AbilityId::BuildTechLabStarport,
                None => false,
            },
    {
        match self.ordered_ability() {
            Some(a) => matches!(
                a,
                AbilityId::BuildTechLabBarracks | AbilityId::BuildTechLabFactory
                    | AbilityId::BuildTechLabStarport
            ),
            None => false,
        }
    }

    /// Checks if the building makes a reactor.
    pub fn is_making_reactor(&self) -> (r: bool)
        ensures
            r == match self@.ordered_ability() {
                Some(a) => a == AbilityId::BuildReactorBarracks || a
                    == AbilityId::BuildReactorFactory || a == AbilityId::BuildReactorStarport,
                None => false,
            },
    {
        match self.ordered_ability() {
            Some(a) => matches!(
                a,
                AbilityId::BuildReactorBarracks | AbilityId::BuildReactorFactory
                    | AbilityId::BuildReactorStarport
            ),
            None => false,
        }
    }

    /// Orders the unit to use `ability` on `target`.
    pub fn command(&self, commander: &mut Commander, ability: AbilityId, target: Target, queue: bool)
        requires
            old(commander).wf(),
        ensures
            final(commander).wf(),
            final(commander).commands() == with_tag(
                old(commander).commands(),
                (CommandKey { ability, target, queue }),
                self@.tag,
            ),
            final(commander).autocast() == old(commander).autocast(),
    {
        commander.command(self.tag, ability, target, queue);
    }

    /// Switches autocast of `ability` for the unit.
    pub fn toggle_autocast(&self, commander: &mut Commander, ability: AbilityId)
        requires
            old(commander).wf(),
        ensures
            final(commander).wf(),
            final(commander).autocast() == with_tag(
                old(commander).autocast(),
                autocast_key(ability),
                self@.tag,
            ),
            final(commander).commands() == old(commander).commands(),
    {
        commander.toggle_autocast(self.tag, ability);
    }
}

impl UnitView {
    /// Whether the unit's first order uses the ability that makes a unit of
    /// the type `t`.
    pub open spec fn makes(self, data: &GameData, t: UnitTypeId) -> bool {
        match data.spec_unit(t) {
            Some(d) => d.ability.is_some() && self.ordered_ability() == d.ability,
            None => false,
        }
    }
}

impl Unit {
    /// Orders the unit to use `ability`.
    pub fn use_ability(&self, commander: &mut Commander, ability: AbilityId, queue: bool)
        requires
            old(commander).wf(),
        ensures
            final(commander).wf(),
            final(commander).commands() == with_tag(
                old(commander).commands(),
                (CommandKey { ability: ability, target: Target::Nowhere, queue: queue }),
                self@.tag,
            ),
            final(commander).autocast() == old(commander).autocast(),
    {
        commander.command(self.tag, ability, Target::Nowhere, queue);
    }

    /// Orders the unit what a right click orders.
    pub fn smart(&self, commander: &mut Commander, target: Target, queue: bool)
        requires
            old(commander).wf(),
        ensures
            final(commander).wf(),
            final(commander).commands() == with_tag(
                old(commander).commands(),
                (CommandKey { ability: AbilityId::Smart, target: target, queue: queue }),
                self@.tag,
            ),
            final(commander).autocast() == old(commander).autocast(),
    {
        commander.command(self.tag, AbilityId::Smart, target, queue);
    }

    /// Orders the unit to attack `target`.
    pub fn attack(&self, commander: &mut Commander, target: Target, queue: bool)
        requires
            old(commander).wf(),
        ensures
            final(commander).wf(),
            final(commander).commands() == with_tag(
                old(commander).commands(),
                (CommandKey { ability: AbilityId::Attack, target: target, queue: queue }),
                self@.tag,
            ),
            final(commander).autocast() == old(commander).autocast(),
    {
        commander.command(self.tag, AbilityId::Attack, target, queue);
    }

    /// Orders the unit to move to `target`.
    pub fn move_to(&self, commander: &mut Commander, target: Target, queue: bool)
        requires
            old(commander).wf(),
        ensures
            final(commander).wf(),
            final(commander).commands() == with_tag(
                old(commander).commands(),
                (CommandKey { ability: AbilityId::MoveMove, target: target, queue: queue }),
                self@.tag,
            ),
            final(commander).autocast() == old(commander).autocast(),
    {
        commander.command(self.tag, AbilityId::MoveMove, target, queue);
    }

    /// Orders the unit to hold its position.
    pub fn hold_position(&self, commander: &mut Commander, queue: bool)
        requires
            old(commander).wf(),
        ensures
            final(commander).wf(),
            final(commander).commands() == with_tag(
                old(commander).commands(),
                (CommandKey { ability: AbilityId::HoldPosition, target: Target::Nowhere, queue: queue }),
                self@.tag,
            ),
            final(commander).autocast() == old(commander).autocast(),
    {
        commander.command(self.tag, AbilityId::HoldPosition, Target::Nowhere, queue);
    }

    /// Orders the worker to gather from the resource with the tag `target`.
    pub fn gather(&self, commander: &mut Commander, target: u64, queue: bool)
        requires
            old(commander).wf(),
        ensures
            final(commander).wf(),
            final(commander).commands() == with_tag(
                old(commander).commands(),
                (CommandKey { ability: AbilityId::HarvestGather, target: Target::Tag(target), queue: queue }),
                self@.tag,
            ),
            final(commander).autocast() == old(commander).autocast(),
    {
        commander.command(self.tag, AbilityId::HarvestGather, Target::Tag(target), queue);
    }

    /// Orders the worker to bring back what it carries.
    pub fn return_resource(&self, commander: &mut Commander, queue: bool)
        requires
            old(commander).wf(),
        ensures
            final(commander).wf(),
            final(commander).commands() == with_tag(
                old(commander).commands(),
                (CommandKey { ability: AbilityId::HarvestReturn, target: Target::Nowhere, queue: queue }),
                self@.tag,
            ),
            final(commander).autocast() == old(commander).autocast(),
    {
        commander.command(self.tag, AbilityId::HarvestReturn, Target::Nowhere, queue);
    }

    /// Orders the unit to stop.
    pub fn stop(&self, commander: &mut Commander, queue: bool)
        requires
            old(commander).wf(),
        ensures
            final(commander).wf(),
            final(commander).commands() == with_tag(
                old(commander).commands(),
                (CommandKey { ability: AbilityId::Stop, target: Target::Nowhere, queue: queue }),
                self@.tag,
            ),
            final(commander).autocast() == old(commander).autocast(),
    {
        commander.command(self.tag, AbilityId::Stop, Target::Nowhere, queue);
    }

    /// Orders the unit to patrol to `target`.
    pub fn patrol(&self, commander: &mut Commander, target: Target, queue: bool)
        requires
            old(commander).wf(),
        ensures
            final(commander).wf(),
            final(commander).commands() == with_tag(
                old(commander).commands(),
                (CommandKey { ability: AbilityId::Patrol, target: target, queue: queue }),
                self@.tag,
            ),
            final(commander).autocast() == old(commander).autocast(),
    {
        commander.command(self.tag, AbilityId::Patrol, target, queue);
    }

    /// Orders the unit to repair the unit with the tag `target`.
    pub fn repair(&self, commander: &mut Commander, target: u64, queue: bool)
        requires
            old(commander).wf(),
        ensures
            final(commander).wf(),
            final(commander).commands() == with_tag(
                old(commander).commands(),
                (CommandKey { ability: AbilityId::EffectRepair, target: Target::Tag(target), queue: queue }),
                self@.tag,
            ),
            final(commander).autocast() == old(commander).autocast(),
    {
        commander.command(self.tag, AbilityId::EffectRepair, Target::Tag(target), queue);
    }

    /// Orders the building to give up its construction.
    pub fn cancel_building(&self, commander: &mut Commander, queue: bool)
        requires
            old(commander).wf(),
        ensures
            final(commander).wf(),
            final(commander).commands() == with_tag(
                old(commander).commands(),
                (CommandKey { ability: AbilityId::CancelBuildInProgress, target: Target::Nowhere, queue: queue }),
                self@.tag,
            ),
            final(commander).autocast() == old(commander).autocast(),
    {
        commander.command(self.tag, AbilityId::CancelBuildInProgress, Target::Nowhere, queue);
    }

    /// Orders the building to lift off.
    pub fn lift(&self, commander: &mut Commander, queue: bool)
        requires
            old(commander).wf(),
        ensures
            final(commander).wf(),
            final(commander).commands() == with_tag(
                old(commander).commands(),
                (CommandKey { ability: AbilityId::Lift, target: Target::Nowhere, queue: queue }),
                self@.tag,
            ),
            final(commander).autocast() == old(commander).autocast(),
    {
        commander.command(self.tag, AbilityId::Lift, Target::Nowhere, queue);
    }

    /// Orders the building to land at `target`.
    pub fn land(&self, commander: &mut Commander, target: Point2, queue: bool)
        requires
            old(commander).wf(),
        ensures
            final(commander).wf(),
            final(commander).commands() == with_tag(
                old(commander).commands(),
                (CommandKey { ability: AbilityId::Land, target: Target::Pos(target), queue: queue }),
                self@.tag,
            ),
            final(commander).autocast() == old(commander).autocast(),
    {
        commander.command(self.tag, AbilityId::Land, Target::Pos(target), queue);
    }

    /// Orders the production building to give up the last unit it was
    /// ordered to make.
    pub fn cancel_queue(&self, commander: &mut Commander, queue: bool)
        requires
            old(commander).wf(),
        ensures
            final(commander).wf(),
            final(commander).commands() == with_tag(
                old(commander).commands(),
                (CommandKey {
                    ability: if self@.type_id.spec_is_townhall() {
                        AbilityId::CancelQueueCancelToSelection
                    } else {
                        AbilityId::CancelQueue5
                    },
                    target: Target::Nowhere,
                    queue,
                }),
                self@.tag,
            ),
            final(commander).autocast() == old(commander).autocast(),
    {
        let ability = if self.type_id.is_townhall() {
            AbilityId::CancelQueueCancelToSelection
        } else {
            AbilityId::CancelQueue5
        };
        commander.command(self.tag, ability, Target::Nowhere, queue);
    }

    /// Orders the unit to use the ability that makes a unit of the type
    /// `unit`, on `target`. Tells whether the order was given: it is not
    /// where the rules know no such ability.
    pub fn make(
        &self,
        commander: &mut Commander,
        unit: UnitTypeId,
        target: Target,
        queue: bool,
        data: &GameData,
    ) -> (given: bool)
        requires
            old(commander).wf(),
        ensures
            final(commander).wf(),
            final(commander).autocast() == old(commander).autocast(),
            given == (data.spec_unit(unit).is_some() && data.spec_unit(unit).unwrap().ability.is_some()),
            final(commander).commands() == if given {
                with_tag(
                    old(commander).commands(),
                    (CommandKey {
                        ability: data.spec_unit(unit).unwrap().ability.unwrap(),
                        target,
                        queue,
                    }),
                    self@.tag,
                )
            } else {
                old(commander).commands()
            },
    {
        match data.unit(unit) {
            Some(d) => match d.ability {
                Some(ability) => {
                    commander.command(self.tag, ability, target, queue);
                    true
                },
                None => false,
            },
            None => false,
        }
    }

    /// Orders the worker to build a structure of the type `unit` at
    /// `target`. Tells whether the order was given; see [`Unit::make`].
    pub fn build(
        &self,
        commander: &mut Commander,
        unit: UnitTypeId,
        target: Point2,
        queue: bool,
        data: &GameData,
    ) -> (given: bool)
        requires
            old(commander).wf(),
        ensures
            final(commander).wf(),
            final(commander).autocast() == old(commander).autocast(),
            given == (data.spec_unit(unit).is_some() && data.spec_unit(unit).unwrap().ability.is_some()),
            final(commander).commands() == if given {
                with_tag(
                    old(commander).commands(),
                    (CommandKey {
                        ability: data.spec_unit(unit).unwrap().ability.unwrap(),
                        target: Target::Pos(target),
                        queue,
                    }),
                    self@.tag,
                )
            } else {
                old(commander).commands()
            },
    {
        self.make(commander, unit, Target::Pos(target), queue, data)
    }

    /// Orders the worker to build a gas building of the type `gas` on the
    /// geyser with the tag `target`. Tells whether the order was given; see
    /// [`Unit::make`].
    pub fn build_gas(
        &self,
        commander: &mut Commander,
        gas: UnitTypeId,
        target: u64,
        queue: bool,
        data: &GameData,
    ) -> (given: bool)
        requires
            old(commander).wf(),
        ensures
            final(commander).wf(),
            final(commander).autocast() == old(commander).autocast(),
            given == (data.spec_unit(gas).is_some() && data.spec_unit(gas).unwrap().ability.is_some()),
            final(commander).commands() == if given {
                with_tag(
                    old(commander).commands(),
                    (CommandKey {
                        ability: data.spec_unit(gas).unwrap().ability.unwrap(),
                        target: Target::Tag(target),
                        queue,
                    }),
                    self@.tag,
                )
            } else {
                old(commander).commands()
            },
    {
        self.make(commander, gas, Target::Tag(target), queue, data)
    }

    /// Orders the production building to make a unit of the type `unit`.
    /// Tells whether the order was given; see [`Unit::make`].
    pub fn train(&self, commander: &mut Commander, unit: UnitTypeId, queue: bool, data: &GameData) -> (given:
        bool)
        requires
            old(commander).wf(),
        ensures
            final(commander).wf(),
            final(commander).autocast() == old(commander).autocast(),
            given == (data.spec_unit(unit).is_some() && data.spec_unit(unit).unwrap().ability.is_some()),
            final(commander).commands() == if given {
                with_tag(
                    old(commander).commands(),
                    (CommandKey {
                        ability: data.spec_unit(unit).unwrap().ability.unwrap(),
                        target: Target::Nowhere,
                        queue,
                    }),
                    self@.tag,
                )
            } else {
                old(commander).commands()
            },
    {
        self.make(commander, unit, Target::Nowhere, queue, data)
    }

    /// Orders the building to research an upgrade. Tells whether the order
    /// was given: it is not where the rules do not know the upgrade, unless
    /// it is a level of the plating of vehicles and ships, which has an
    /// ability of its own.
    pub fn research(&self, commander: &mut Commander, upgrade: UpgradeId, queue: bool, data: &GameData) -> (given:
        bool)
        requires
            old(commander).wf(),
        ensures
            final(commander).wf(),
            final(commander).autocast() == old(commander).autocast(),
            given == research_ability(upgrade, data).is_some(),
            final(commander).commands() == match research_ability(upgrade, data) {
                Some(ability) => with_tag(
                    old(commander).commands(),
                    (CommandKey { ability, target: Target::Nowhere, queue }),
                    self@.tag,
                ),
                None => old(commander).commands(),
            },
    {
        match upgrade {
            UpgradeId::TerranVehicleAndShipArmorsLevel1
            | UpgradeId::TerranVehicleAndShipArmorsLevel2
            | UpgradeId::TerranVehicleAndShipArmorsLevel3 => {
                commander.command(
                    self.tag,
                    AbilityId::ResearchTerranVehicleAndShipPlating,
                    Target::Nowhere,
                    queue,
                );
                true
            },
            _ => match data.upgrade(upgrade) {
                Some(d) => {
                    commander.command(self.tag, d.ability, Target::Nowhere, queue);
                    true
                },
                None => false,
            },
        }
    }

    /// Orders the warp gate to warp in a unit at `target` with the ability
    /// `ability`, which the caller looked up for the type of the unit.
    pub fn warp_in(&self, commander: &mut Commander, ability: AbilityId, target: Point2)
        requires
            old(commander).wf(),
        ensures
            final(commander).wf(),
            final(commander).commands() == with_tag(
                old(commander).commands(),
                (CommandKey { ability, target: Target::Pos(target), queue: false }),
                self@.tag,
            ),
            final(commander).autocast() == old(commander).autocast(),
    {
        commander.command(self.tag, ability, Target::Pos(target), false);
    }
}

/// The ability that researches an upgrade.
pub open spec fn research_ability(upgrade: UpgradeId, data: &GameData) -> Option<AbilityId> {
    if upgrade == UpgradeId::TerranVehicleAndShipArmorsLevel1 || upgrade
        == UpgradeId::TerranVehicleAndShipArmorsLevel2 || upgrade
        == UpgradeId::TerranVehicleAndShipArmorsLevel3 {
        Some(AbilityId::ResearchTerranVehicleAndShipPlating)
    } else {
        match data.spec_upgrade(upgrade) {
            Some(d) => Some(d.ability),
            None => None,
        }
    }
}

} // verus!
