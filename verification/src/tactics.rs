//! What a unit can reach: the kinds of target it can attack, the ranges of
//! its weapons, and whether a target is in range.
use vstd::prelude::*;
use crate::bot::{contains_upgrade, has_upgrade_in};
use crate::game_data::{Attribute, GameData, TargetType, Weapon};
use crate::geometry::{dist2, Point2, SCALE};
use crate::ids::{AbilityId, BuffId, UnitTypeId, UpgradeId};
use crate::unit::{Unit, UnitView};
use crate::weapons::{clamp_i32, not_target_of, weapons_of};

verus! {

/// Something with a place on the map and a size.
pub trait Radius {
    /// Where it is.
    spec fn spec_position(&self) -> Point2;

    /// How far it reaches from there, in 4096ths.
    spec fn spec_radius(&self) -> i32;

    /// Where it is.
    fn position(&self) -> (r: Point2)
        ensures
            r == self.spec_position(),
    ;

    /// How far it reaches from there, in 4096ths.
    fn radius(&self) -> (r: i32)
        ensures
            r == self.spec_radius(),
    ;
}

impl Radius for Unit {
    open spec fn spec_position(&self) -> Point2 {
        self@.position
    }

    open spec fn spec_radius(&self) -> i32 {
        self@.radius
    }

    fn position(&self) -> (r: Point2) {
        self.position
    }

    fn radius(&self) -> (r: i32) {
        self.radius
    }
}

/// A point has no size.
impl Radius for Point2 {
    open spec fn spec_position(&self) -> Point2 {
        *self
    }

    open spec fn spec_radius(&self) -> i32 {
        0
    }

    fn position(&self) -> (r: Point2) {
        *self
    }

    fn radius(&self) -> (r: i32) {
        0
    }
}

/// The place of the first of the weapons that can be fired at a target that
/// weapons for `not_target` only cannot hit; `None` where none can.
pub open spec fn first_hitting(weapons: Seq<Weapon>, not_target: TargetType) -> Option<int>
    decreases weapons.len(),
{
    if weapons.len() == 0 {
        None
    } else if weapons[0].target != not_target {
        Some(0)
    } else {
        match first_hitting(weapons.skip(1), not_target) {
            Some(i) => Some(i + 1),
            None => None,
        }
    }
}

/// The greatest of the numbers that `value` gives for the first `n` weapons;
/// `None` for no weapons.
pub open spec fn greatest(weapons: Seq<Weapon>, value: spec_fn(Weapon) -> int, n: int) -> Option<int>
    decreases n,
{
    if n <= 0 {
        None
    } else {
        match greatest(weapons, value, n - 1) {
            Some(m) => if value(weapons[n - 1]) >= m {
                Some(value(weapons[n - 1]))
            } else {
                Some(m)
            },
            None => Some(value(weapons[n - 1])),
        }
    }
}

/// Whether one of the weapons can be fired at the ground only and one at
/// the air only.
pub open spec fn has_both_kinds(weapons: Seq<Weapon>) -> bool {
    (exists|i: int| 0 <= i < weapons.len() && (#[trigger] weapons[i]).target == TargetType::Ground)
        && (exists|i: int|
        0 <= i < weapons.len() && (#[trigger] weapons[i]).target == TargetType::Air)
}

/// Whether one of the weapons can be fired at any target.
pub open spec fn has_any_kind(weapons: Seq<Weapon>) -> bool {
    exists|i: int| 0 <= i < weapons.len() && (#[trigger] weapons[i]).target == TargetType::Any
}

/// What the weapons can be fired at together; `None` for no weapons.
pub open spec fn targets_of(weapons: Seq<Weapon>) -> Option<TargetType> {
    if weapons.len() == 0 {
        None
    } else if has_any_kind(weapons) || has_both_kinds(weapons) {
        Some(TargetType::Any)
    } else if exists|i: int|
        0 <= i < weapons.len() && (#[trigger] weapons[i]).target == TargetType::Ground {
        Some(TargetType::Ground)
    } else {
        Some(TargetType::Air)
    }
}

/// What the upgrades of the unit's owner add to the range that the unit
/// has by itself, in 4096ths.
pub open spec fn plain_range_bonus(u: UnitView, upgrades: Seq<UpgradeId>) -> int {
    let t = u.type_id;
    if t == UnitTypeId::Hydralisk && has_upgrade_in(upgrades, UpgradeId::EvolveGroovedSpines) {
        SCALE as int
    } else if t == UnitTypeId::Phoenix && has_upgrade_in(upgrades, UpgradeId::PhoenixRangeUpgrade) {
        2 * SCALE
    } else if (t == UnitTypeId::PlanetaryFortress || t == UnitTypeId::MissileTurret || t
        == UnitTypeId::AutoTurret) && has_upgrade_in(upgrades, UpgradeId::HiSecAutoTracking) {
        SCALE as int
    } else {
        0
    }
}

/// From how far a ghost snipes, in 4096ths; nothing where the rules do not
/// say.
pub open spec fn snipe_range(data: &GameData) -> int {
    match data.spec_ability(AbilityId::EffectGhostSnipe) {
        Some(a) => match a.cast_range {
            Some(r) => r as int,
            None => 0,
        },
        None => 0,
    }
}

/// The least energy with which a ghost can snipe.
pub const SNIPE_ENERGY: u32 = 50;

/// Range of the weapon `w` of the unit against a unit, with upgrades; in
/// 4096ths. A colossus with the thermal lance reaches two further. A ghost
/// reaches as far as it snipes while it has the energy to, and four further
/// while it aims.
pub open spec fn real_range_of(u: UnitView, w: Weapon, upgrades: Seq<UpgradeId>, data: &GameData) -> int {
    let t = u.type_id;
    if t == UnitTypeId::Colossus && has_upgrade_in(upgrades, UpgradeId::ExtendedThermalLance) {
        w.range + 2 * SCALE
    } else if t == UnitTypeId::TerranGhost {
        if u.has_buff(BuffId::ChannelSnipeCombat) {
            snipe_range(data) + 4 * SCALE
        } else if u.energy.is_some() && u.energy.unwrap() >= SNIPE_ENERGY {
            snipe_range(data)
        } else {
            w.range as int
        }
    } else {
        w.range + plain_range_bonus(u, upgrades)
    }
}

/// Range of the unit against targets that weapons for `not_target` only
/// cannot hit, without upgrades: that of the first weapon that can hit them,
/// `0` where none can.
pub open spec fn range_against(u: UnitView, not_target: TargetType, data: &GameData) -> int {
    let weapons = weapons_of(u, data);
    match first_hitting(weapons, not_target) {
        Some(i) => weapons[i].range as int,
        None => 0,
    }
}

/// Range of the unit against the unit `target`, without upgrades: against a
/// colossus the greatest range of its weapons, else that of the first weapon
/// that can hit the target; `0` where none can.
pub open spec fn range_vs_of(u: UnitView, target: UnitView, data: &GameData) -> int {
    let weapons = weapons_of(u, data);
    if target.type_id == UnitTypeId::Colossus {
        match greatest(weapons, |w: Weapon| w.range as int, weapons.len() as int) {
            Some(r) => r,
            None => 0,
        }
    } else {
        range_against(u, not_target_of(target), data)
    }
}

/// Range of the unit against the unit `target`, with upgrades.
pub open spec fn real_range_vs_of(
    u: UnitView,
    target: UnitView,
    upgrades: Seq<UpgradeId>,
    data: &GameData,
) -> int {
    let weapons = weapons_of(u, data);
    if target.type_id == UnitTypeId::Colossus {
        match greatest(
            weapons,
            |w: Weapon| real_range_of(u, w, upgrades, data),
            weapons.len() as int,
        ) {
            Some(r) => r,
            None => 0,
        }
    } else {
        match first_hitting(weapons, not_target_of(target)) {
            Some(i) => real_range_of(u, weapons[i], upgrades, data),
            None => 0,
        }
    }
}

/// How near a sieged tank cannot fire, in 4096ths.
pub const SIEGE_MIN_RANGE: i64 = 8192;

/// Whether a target at `target` with the radius `radius` is within `range`
/// of the unit, `gap` allowed: no further than the range, both radii and
/// the gap. A sieged tank cannot fire nearer than `SIEGE_MIN_RANGE`.
pub open spec fn within_range(u: UnitView, target: Point2, radius: int, range: int, gap: int) -> bool {
    let d = dist2(u.position, target);
    let reach = u.radius + radius + range + gap;
    (u.type_id != UnitTypeId::SiegeTankSieged || d > SIEGE_MIN_RANGE * SIEGE_MIN_RANGE) && d
        <= reach * reach
}

/// Whether the unit `target` is in range of the unit's weapons as they are
/// without upgrades, `gap` allowed. A unit without a weapon that can hit
/// the target has nothing in range.
pub open spec fn in_range_of_unit(u: UnitView, target: UnitView, gap: int, data: &GameData) -> bool {
    let weapons = weapons_of(u, data);
    if target.type_id == UnitTypeId::Colossus {
        weapons.len() > 0 && within_range(
            u,
            target.position,
            target.radius as int,
            range_vs_of(u, target, data),
            gap,
        )
    } else {
        range_against(u, not_target_of(target), data) > 0 && within_range(
            u,
            target.position,
            target.radius as int,
            range_against(u, not_target_of(target), data),
            gap,
        )
    }
}

/// Whether the unit `target` is in range of the unit's weapons with
/// upgrades, `gap` allowed.
pub open spec fn in_real_range_of_unit(
    u: UnitView,
    target: UnitView,
    gap: int,
    upgrades: Seq<UpgradeId>,
    data: &GameData,
) -> bool {
    real_range_vs_of(u, target, upgrades, data) > 0 && within_range(
        u,
        target.position,
        target.radius as int,
        real_range_vs_of(u, target, upgrades, data),
        gap,
    )
}

/// The place of the first weapon that can hit; see [`first_hitting`].
pub fn find_hitting(weapons: &[Weapon], not_target: TargetType) -> (r: Option<usize>)
    ensures
        match r {
            Some(i) => first_hitting(weapons@, not_target) == Some(i as int) && i < weapons@.len(),
            None => first_hitting(weapons@, not_target).is_none(),
        },
{
    let mut i: usize = 0;
    assert(weapons@.skip(0) =~= weapons@);
    while i < weapons.len()
        invariant
            i <= weapons.len(),
            first_hitting(weapons@, not_target) == match first_hitting(
                weapons@.skip(i as int),
                not_target,
            ) {
                Some(k) => Some(k + i),
                None => None,
            },
        decreases weapons.len() - i,
    {
        assert(weapons@.skip(i as int)[0] == weapons@[i as int]);
        assert(weapons@.skip(i as int).skip(1) =~= weapons@.skip(i + 1));
        if weapons[i].target != not_target {
            return Some(i);
        }
        i += 1;
    }
    None
}

/// Damage that the weapon does in one second without upgrades, in 4096ths,
/// rounded down. Without damage it is nothing. `None` for a weapon that does
/// damage and takes no time between two volleys.
pub open spec fn weapon_dps(w: Weapon) -> Option<int> {
    if w.damage == 0 || w.attacks == 0 {
        Some(0)
    } else if w.speed > 0 {
        Some(w.damage * w.attacks * SCALE * SCALE / (w.speed as int))
    } else {
        None
    }
}

/// Damage in one second against targets that weapons for `not_target` only
/// cannot hit: that of the first weapon that can hit them, nothing where
/// none can.
pub open spec fn dps_against(weapons: Seq<Weapon>, not_target: TargetType) -> Option<int> {
    match first_hitting(weapons, not_target) {
        Some(i) => weapon_dps(weapons[i]),
        None => Some(0),
    }
}

/// The greatest damage in one second among the first `n` weapons, nothing
/// for no weapons; `None` where one of them does damage and takes no time
/// between two volleys.
pub open spec fn greatest_dps(weapons: Seq<Weapon>, n: int) -> Option<int>
    decreases n,
{
    if n <= 0 {
        Some(0)
    } else {
        match (greatest_dps(weapons, n - 1), weapon_dps(weapons[n - 1])) {
            (Some(m), Some(d)) => Some(
                if d >= m {
                    d
                } else {
                    m
                },
            ),
            _ => None,
        }
    }
}

/// Damage in one second of a unit with the weapons against the unit
/// `target`, without upgrades: against a colossus the greatest among the
/// weapons, else that of the first weapon that can hit it.
pub open spec fn dps_vs_unit(weapons: Seq<Weapon>, target: UnitView) -> Option<int> {
    if target.type_id == UnitTypeId::Colossus {
        greatest_dps(weapons, weapons.len() as int)
    } else if target.is_flying {
        dps_against(weapons, TargetType::Ground)
    } else {
        dps_against(weapons, TargetType::Air)
    }
}

/// Damage that the weapon does in one second; see [`weapon_dps`].
pub fn dps_of(w: &Weapon) -> (r: Option<u128>)
    ensures
        match r {
            Some(d) => weapon_dps(*w) == Some(d as int),
            None => weapon_dps(*w).is_none(),
        },
{
    if w.damage == 0 || w.attacks == 0 {
        Some(0)
    } else if w.speed > 0 {
        assert(0 <= w.damage * w.attacks <= 0xffff_fffe_0000_0001) by (nonlinear_arith)
            requires
                0 <= w.damage <= 0xffff_ffff,
                0 <= w.attacks <= 0xffff_ffff,
        ;
        let volley: u128 = w.damage as u128 * w.attacks as u128;
        assert(volley * SCALE * SCALE <= 0xffff_fffe_0000_0001 * 0x100_0000) by (nonlinear_arith)
            requires
                0 <= volley <= 0xffff_fffe_0000_0001,
                SCALE == 0x1000,
        ;
        assert(0 <= volley * SCALE <= 0xffff_fffe_0000_0001 * 0x1000) by (nonlinear_arith)
            requires
                0 <= volley <= 0xffff_fffe_0000_0001,
                SCALE == 0x1000,
        ;
        let d: u128 = volley * (SCALE as u128) * (SCALE as u128);
        proof {
            assert(0 <= (d as int) / (w.speed as int) <= d) by (nonlinear_arith)
                requires
                    d >= 0,
                    w.speed >= 1,
            ;
        }
        Some(d / (w.speed as u128))
    } else {
        None
    }
}

/// Damage in one second against targets that weapons for `not_target` only
/// cannot hit; see [`dps_against`].
fn find_dps(weapons: &[Weapon], not_target: TargetType) -> (r: Option<u128>)
    ensures
        match r {
            Some(d) => dps_against(weapons@, not_target) == Some(d as int),
            None => dps_against(weapons@, not_target).is_none(),
        },
{
    match find_hitting(weapons, not_target) {
        Some(i) => dps_of(&weapons[i]),
        None => Some(0),
    }
}

/// The greatest damage in one second among the weapons; see
/// [`greatest_dps`].
fn find_greatest_dps(weapons: &[Weapon]) -> (r: Option<u128>)
    ensures
        match r {
            Some(d) => greatest_dps(weapons@, weapons@.len() as int) == Some(d as int),
            None => greatest_dps(weapons@, weapons@.len() as int).is_none(),
        },
{
    let mut best: u128 = 0;
    let mut i: usize = 0;
    while i < weapons.len()
        invariant
            i <= weapons.len(),
            greatest_dps(weapons@, i as int) == Some(best as int),
        decreases weapons.len() - i,
    {
        match dps_of(&weapons[i]) {
            Some(d) => {
                if d >= best {
                    best = d;
                }
            },
            None => {
                proof {
                    lemma_no_greatest(weapons@, i as int, weapons@.len() as int);
                }
                return None;
            },
        }
        i += 1;
    }
    Some(best)
}

/// Where a weapon takes no time, none is the greatest from there on.
proof fn lemma_no_greatest(weapons: Seq<Weapon>, i: int, n: int)
    requires
        0 <= i < n <= weapons.len(),
        weapon_dps(weapons[i]).is_none(),
    ensures
        greatest_dps(weapons, n).is_none(),
    decreases n - i,
{
    if n > i + 1 {
        lemma_no_greatest(weapons, i, n - 1);
    }
}

/// The range of the weapon `w` of the unit against a unit, with upgrades;
/// see [`real_range_of`].
pub fn find_real_range(u: &Unit, w: &Weapon, upgrades: &Vec<UpgradeId>, data: &GameData) -> (r: i64)
    ensures
        r == real_range_of(u@, *w, upgrades@, data),
        -0x1_0000_0000 <= r <= 0x1_0000_0000,
{
    let t = u.type_id;
    if t == UnitTypeId::Colossus && contains_upgrade(upgrades, UpgradeId::ExtendedThermalLance) {
        w.range as i64 + 2 * (SCALE as i64)
    } else if t == UnitTypeId::TerranGhost {
        let snipe: i64 = match data.ability(AbilityId::EffectGhostSnipe) {
            Some(a) => match a.cast_range {
                Some(r) => r as i64,
                None => 0,
            },
            None => 0,
        };
        if u.has_buff(BuffId::ChannelSnipeCombat) {
            snipe + 4 * (SCALE as i64)
        } else if u.energy.is_some() && u.energy.unwrap() >= SNIPE_ENERGY {
            snipe
        } else {
            w.range as i64
        }
    } else {
        let bonus: i64 = if t == UnitTypeId::Hydralisk && contains_upgrade(
            upgrades,
            UpgradeId::EvolveGroovedSpines,
        ) {
            SCALE as i64
        } else if t == UnitTypeId::Phoenix && contains_upgrade(
            upgrades,
            UpgradeId::PhoenixRangeUpgrade,
        ) {
            2 * (SCALE as i64)
        } else if matches!(
            t,
            UnitTypeId::PlanetaryFortress | UnitTypeId::MissileTurret | UnitTypeId::AutoTurret
        ) && contains_upgrade(upgrades, UpgradeId::HiSecAutoTracking) {
            SCALE as i64
        } else {
            0
        };
        w.range as i64 + bonus
    }
}

impl Unit {
    /// What the unit's weapons can be fired at together; `None` for a unit
    /// without weapons.
    pub fn weapon_target(&self, data: &GameData) -> (r: Option<TargetType>)
        ensures
            r == targets_of(weapons_of(self@, data)),
    {
        let weapons = self.weapons(data);
        if weapons.len() == 0 {
            return None;
        }
        let mut ground = false;
        let mut air = false;
        let mut any = false;
        let mut i: usize = 0;
        while i < weapons.len()
            invariant
                i <= weapons.len(),
                ground == exists|k: int|
                    0 <= k < i && (#[trigger] weapons@[k]).target == TargetType::Ground,
                air == exists|k: int| 0 <= k < i && (#[trigger] weapons@[k]).target == TargetType::Air,
                any == exists|k: int| 0 <= k < i && (#[trigger] weapons@[k]).target == TargetType::Any,
            decreases weapons.len() - i,
        {
            match weapons[i].target {
                TargetType::Ground => {
                    ground = true;
                },
                TargetType::Air => {
                    air = true;
                },
                TargetType::Any => {
                    any = true;
                },
            }
            i += 1;
        }
        if any || (ground && air) {
            Some(TargetType::Any)
        } else if ground {
            Some(TargetType::Ground)
        } else {
            proof {
                assert(weapons@[0].target == TargetType::Air);
            }
            Some(TargetType::Air)
        }
    }

    /// Checks if the unit can attack targets on the ground and in the air.
    pub fn can_attack_both(&self, data: &GameData) -> (r: bool)
        ensures
            r == (targets_of(weapons_of(self@, data)) == Some(TargetType::Any)),
    {
        match self.weapon_target(data) {
            Some(t) => t.is_any(),
            None => false,
        }
    }

    /// Checks if the unit can attack targets on the ground.
    pub fn can_attack_ground(&self, data: &GameData) -> (r: bool)
        ensures
            r == first_hitting(weapons_of(self@, data), TargetType::Air).is_some(),
    {
        find_hitting(self.weapons(data), TargetType::Air).is_some()
    }

    /// Checks if the unit can attack targets in the air.
    pub fn can_attack_air(&self, data: &GameData) -> (r: bool)
        ensures
            r == first_hitting(weapons_of(self@, data), TargetType::Ground).is_some(),
    {
        find_hitting(self.weapons(data), TargetType::Ground).is_some()
    }

    /// Checks if the unit can attack the unit `target`: it has a weapon,
    /// and the target is a colossus or one of the weapons can hit it.
    pub fn can_attack_unit(&self, target: &Unit, data: &GameData) -> (r: bool)
        ensures
            r == (weapons_of(self@, data).len() > 0 && (target@.type_id == UnitTypeId::Colossus
                || first_hitting(weapons_of(self@, data), not_target_of(target@)).is_some())),
    {
        let weapons = self.weapons(data);
        if weapons.len() == 0 {
            return false;
        }
        if target.type_id == UnitTypeId::Colossus {
            true
        } else {
            let not_target = if target.is_flying {
                TargetType::Ground
            } else {
                TargetType::Air
            };
            find_hitting(weapons, not_target).is_some()
        }
    }

    /// Damage in one second against targets on the ground, without
    /// upgrades; in 4096ths. `None` where the weapon takes no time between
    /// two volleys.
    pub fn ground_dps(&self, data: &GameData) -> (r: Option<u128>)
        ensures
            match r {
                Some(d) => dps_against(weapons_of(self@, data), TargetType::Air) == Some(d as int),
                None => dps_against(weapons_of(self@, data), TargetType::Air).is_none(),
            },
    {
        find_dps(self.weapons(data), TargetType::Air)
    }

    /// Damage in one second against targets in the air, without upgrades;
    /// in 4096ths. `None` where the weapon takes no time between two
    /// volleys.
    pub fn air_dps(&self, data: &GameData) -> (r: Option<u128>)
        ensures
            match r {
                Some(d) => dps_against(weapons_of(self@, data), TargetType::Ground) == Some(
                    d as int,
                ),
                None => dps_against(weapons_of(self@, data), TargetType::Ground).is_none(),
            },
    {
        find_dps(self.weapons(data), TargetType::Ground)
    }

    /// Damage in one second against the unit `target`, without upgrades; in
    /// 4096ths. See [`dps_vs_unit`].
    pub fn dps_vs(&self, target: &Unit, data: &GameData) -> (r: Option<u128>)
        ensures
            match r {
                Some(d) => dps_vs_unit(weapons_of(self@, data), target@) == Some(d as int),
                None => dps_vs_unit(weapons_of(self@, data), target@).is_none(),
            },
    {
        let weapons = self.weapons(data);
        if target.type_id == UnitTypeId::Colossus {
            find_greatest_dps(weapons)
        } else if target.is_flying {
            find_dps(weapons, TargetType::Ground)
        } else {
            find_dps(weapons, TargetType::Air)
        }
    }

    /// Range of the unit against targets on the ground, without upgrades;
    /// in 4096ths.
    pub fn ground_range(&self, data: &GameData) -> (r: i32)
        ensures
            r == range_against(self@, TargetType::Air, data),
    {
        let weapons = self.weapons(data);
        match find_hitting(weapons, TargetType::Air) {
            Some(i) => weapons[i].range,
            None => 0,
        }
    }

    /// Range of the unit against targets in the air, without upgrades; in
    /// 4096ths.
    pub fn air_range(&self, data: &GameData) -> (r: i32)
        ensures
            r == range_against(self@, TargetType::Ground, data),
    {
        let weapons = self.weapons(data);
        match find_hitting(weapons, TargetType::Ground) {
            Some(i) => weapons[i].range,
            None => 0,
        }
    }

    /// Range of the unit against the unit `target`, without upgrades; see
    /// [`range_vs_of`].
    pub fn range_vs(&self, target: &Unit, data: &GameData) -> (r: i32)
        ensures
            r == range_vs_of(self@, target@, data),
    {
        let weapons = self.weapons(data);
        if target.type_id == UnitTypeId::Colossus {
            let mut best: Option<i32> = None;
            let mut i: usize = 0;
            while i < weapons.len()
                invariant
                    i <= weapons.len(),
                    match best {
                        Some(b) => greatest(weapons@, |w: Weapon| w.range as int, i as int) == Some(
                            b as int,
                        ),
                        None => greatest(weapons@, |w: Weapon| w.range as int, i as int).is_none(),
                    },
                decreases weapons.len() - i,
            {
                let r = weapons[i].range;
                best = match best {
                    Some(b) => if r >= b {
                        Some(r)
                    } else {
                        Some(b)
                    },
                    None => Some(r),
                };
                i += 1;
            }
            match best {
                Some(b) => b,
                None => 0,
            }
        } else {
            let not_target = if target.is_flying {
                TargetType::Ground
            } else {
                TargetType::Air
            };
            match find_hitting(weapons, not_target) {
                Some(i) => weapons[i].range,
                None => 0,
            }
        }
    }

    /// Range of the unit against targets on the ground, with upgrades; in
    /// 4096ths, kept within the range of `i32`.
    pub fn real_ground_range(&self, upgrades: &Vec<UpgradeId>, data: &GameData) -> (r: i32)
        ensures
            r == match first_hitting(weapons_of(self@, data), TargetType::Air) {
                Some(i) => clamp_i32(
                    weapons_of(self@, data)[i].range + plain_range_bonus(self@, upgrades@),
                ),
                None => 0,
            },
    {
        self.plain_real_range(TargetType::Air, upgrades, data)
    }

    /// Range of the unit against targets in the air, with upgrades; in
    /// 4096ths, kept within the range of `i32`.
    pub fn real_air_range(&self, upgrades: &Vec<UpgradeId>, data: &GameData) -> (r: i32)
        ensures
            r == match first_hitting(weapons_of(self@, data), TargetType::Ground) {
                Some(i) => clamp_i32(
                    weapons_of(self@, data)[i].range + plain_range_bonus(self@, upgrades@),
                ),
                None => 0,
            },
    {
        self.plain_real_range(TargetType::Ground, upgrades, data)
    }

    fn plain_real_range(&self, not_target: TargetType, upgrades: &Vec<UpgradeId>, data: &GameData) -> (r:
        i32)
        ensures
            r == match first_hitting(weapons_of(self@, data), not_target) {
                Some(i) => clamp_i32(
                    weapons_of(self@, data)[i].range + plain_range_bonus(self@, upgrades@),
                ),
                None => 0,
            },
    {
        let weapons = self.weapons(data);
        match find_hitting(weapons, not_target) {
            Some(i) => {
                let t = self.type_id;
                let bonus: i64 = if t == UnitTypeId::Hydralisk && contains_upgrade(
                    upgrades,
                    UpgradeId::EvolveGroovedSpines,
                ) {
                    SCALE as i64
                } else if t == UnitTypeId::Phoenix && contains_upgrade(
                    upgrades,
                    UpgradeId::PhoenixRangeUpgrade,
                ) {
                    2 * (SCALE as i64)
                } else if matches!(
                    t,
                    UnitTypeId::PlanetaryFortress | UnitTypeId::MissileTurret
                        | UnitTypeId::AutoTurret
                ) && contains_upgrade(upgrades, UpgradeId::HiSecAutoTracking) {
                    SCALE as i64
                } else {
                    0
                };
                let r = weapons[i].range as i64 + bonus;
                if r > i32::MAX as i64 {
                    i32::MAX
                } else {
                    r as i32
                }
            },
            None => 0,
        }
    }

    /// Range of the unit against the unit `target`, with upgrades; in
    /// 4096ths. See [`real_range_vs_of`].
    pub fn real_range_vs(&self, target: &Unit, upgrades: &Vec<UpgradeId>, data: &GameData) -> (r: i64)
        ensures
            r == real_range_vs_of(self@, target@, upgrades@, data),
            -0x1_0000_0000 <= r <= 0x1_0000_0000,
    {
        let weapons = self.weapons(data);
        if target.type_id == UnitTypeId::Colossus {
            let mut best: Option<i64> = None;
            let mut i: usize = 0;
            while i < weapons.len()
                invariant
                    i <= weapons.len(),
                    match best {
                        Some(b) => greatest(
                            weapons@,
                            |w: Weapon| real_range_of(self@, w, upgrades@, data),
                            i as int,
                        ) == Some(b as int) && -0x1_0000_0000 <= b <= 0x1_0000_0000,
                        None => greatest(
                            weapons@,
                            |w: Weapon| real_range_of(self@, w, upgrades@, data),
                            i as int,
                        ).is_none(),
                    },
                decreases weapons.len() - i,
            {
                let r = find_real_range(self, &weapons[i], upgrades, data);
                best = match best {
                    Some(b) => if r >= b {
                        Some(r)
                    } else {
                        Some(b)
                    },
                    None => Some(r),
                };
                i += 1;
            }
            match best {
                Some(b) => b,
                None => 0,
            }
        } else {
            let not_target = if target.is_flying {
                TargetType::Ground
            } else {
                TargetType::Air
            };
            match find_hitting(weapons, not_target) {
                Some(i) => find_real_range(self, &weapons[i], upgrades, data),
                None => 0,
            }
        }
    }

    /// Checks if a target at `target` with the radius `radius` is within
    /// `range` of the unit, `gap` allowed; see [`within_range`].
    pub fn reaches(&self, target: Point2, radius: i32, range: i64, gap: i32) -> (r: bool)
        requires
            -0x1_0000_0000 <= range <= 0x1_0000_0000,
        ensures
            r == within_range(self@, target, radius as int, range as int, gap as int),
    {
        let d = self.position.distance_squared(target);
        let reach: i64 = self.radius as i64 + radius as i64 + range + gap as i64;
        let least: i128 = SIEGE_MIN_RANGE as i128;
        assert(least * least == 8192 * 8192) by (nonlinear_arith)
            requires
                least == 8192,
        ;
        let far_enough = self.type_id != UnitTypeId::SiegeTankSieged || d > least * least;
        far_enough && self.position.is_closer(reach, target)
    }

    /// Checks if the unit `target` is in range of the unit's weapons as they
    /// are without upgrades, `gap` allowed; see [`in_range_of_unit`].
    pub fn in_range(&self, target: &Unit, gap: i32, data: &GameData) -> (r: bool)
        ensures
            r == in_range_of_unit(self@, target@, gap as int, data),
    {
        let range: i32 = if target.type_id == UnitTypeId::Colossus {
            if self.weapons(data).len() == 0 {
                return false;
            }
            self.range_vs(target, data)
        } else {
            let range = if target.is_flying {
                self.air_range(data)
            } else {
                self.ground_range(data)
            };
            if range <= 0 {
                return false;
            }
            range
        };
        self.reaches(target.position, target.radius, range as i64, gap)
    }

    /// Checks if the unit is in range of the weapons of `threat` as they are
    /// without upgrades, `gap` allowed.
    pub fn in_range_of(&self, threat: &Unit, gap: i32, data: &GameData) -> (r: bool)
        ensures
            r == in_range_of_unit(threat@, self@, gap as int, data),
    {
        threat.in_range(self, gap, data)
    }

    /// Checks if the unit `target` is in range of the unit's weapons with
    /// the upgrades of the unit's owner, `gap` allowed.
    pub fn in_real_range(&self, target: &Unit, gap: i32, upgrades: &Vec<UpgradeId>, data: &GameData) -> (r:
        bool)
        ensures
            r == in_real_range_of_unit(self@, target@, gap as int, upgrades@, data),
    {
        let range = self.real_range_vs(target, upgrades, data);
        if range <= 0 {
            return false;
        }
        self.reaches(target.position, target.radius, range, gap)
    }

    /// Checks if the unit is in range of the weapons of `threat` with the
    /// upgrades of the owner of `threat`, `gap` allowed.
    pub fn in_real_range_of(
        &self,
        threat: &Unit,
        gap: i32,
        upgrades: &Vec<UpgradeId>,
        data: &GameData,
    ) -> (r: bool)
        ensures
            r == in_real_range_of_unit(threat@, self@, gap as int, upgrades@, data),
    {
        threat.in_real_range(self, gap, upgrades, data)
    }

    /// Checks if the unit is near enough to use an ability on the target,
    /// `gap` allowed: no further than the range of the ability, both radii
    /// and the gap. An ability of which the rules tell no range can be used
    /// on nothing.
    pub fn in_ability_cast_range<A: Radius>(
        &self,
        ability_id: AbilityId,
        target: &A,
        gap: i32,
        data: &GameData,
    ) -> (r: bool)
        ensures
            r == match data.spec_ability(ability_id) {
                Some(a) => match a.cast_range {
                    Some(range) => {
                        let reach = range + self@.radius + target.spec_radius() + gap;
                        dist2(self@.position, target.spec_position()) <= reach * reach
                    },
                    None => false,
                },
                None => false,
            },
    {
        match data.ability(ability_id) {
            Some(a) => match a.cast_range {
                Some(range) => {
                    let reach: i64 = range as i64 + self.radius as i64 + target.radius() as i64
                        + gap as i64;
                    self.position.is_closer(reach, target.position())
                },
                None => false,
            },
            None => false,
        }
    }

    /// The first additional damage that a weapon of the unit has against an
    /// attribute, with the attribute.
    pub fn damage_bonus(&self, data: &GameData) -> (r: Option<(Attribute, u32)>)
        ensures
            match r {
                Some(b) => exists|i: int|
                    0 <= i < weapons_of(self@, data).len() && (#[trigger] weapons_of(self@, data)[i]).damage_bonus@.len()
                        > 0 && weapons_of(self@, data)[i].damage_bonus@[0] == b && forall|j: int|
                        0 <= j < i ==> (#[trigger] weapons_of(self@, data)[j]).damage_bonus@.len() == 0,
                None => forall|j: int|
                    0 <= j < weapons_of(self@, data).len() ==> (#[trigger] weapons_of(
                        self@,
                        data,
                    )[j]).damage_bonus@.len() == 0,
            },
    {
        let weapons = self.weapons(data);
        let mut i: usize = 0;
        while i < weapons.len()
            invariant
                i <= weapons.len(),
                weapons@ == weapons_of(self@, data),
                forall|j: int| 0 <= j < i ==> (#[trigger] weapons@[j]).damage_bonus@.len() == 0,
            decreases weapons.len() - i,
        {
            if weapons[i].damage_bonus.len() > 0 {
                return Some(weapons[i].damage_bonus[0]);
            }
            i += 1;
        }
        None
    }
}

} // verus!
