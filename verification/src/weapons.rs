//! What a unit's weapons do to a target, with buffs and upgrades counted in.
use vstd::prelude::*;
use crate::bot::{contains_upgrade, has_upgrade_in};
use crate::game_data::{Attribute, GameData, TargetType, UpgradeBonus, Weapon};
use crate::game_state::Race;
use crate::geometry::SCALE;
use crate::ids::{BuffId, UnitTypeId, UpgradeId};
use crate::unit::{has_attr, Unit, UnitView};

verus! {

/// What a weapon does.
#[derive(Debug, Clone, Copy, PartialEq, Eq, Structural)]
pub struct WeaponStats {
    /// Damage of one volley.
    pub damage: u32,
    /// Time between two volleys, in 4096ths of a second.
    pub speed: i32,
    /// Range, in 4096ths.
    pub range: i32,
}

impl WeaponStats {
    /// Damage in one second, in 4096ths, rounded down. Without damage it is
    /// nothing, which holds of the record that stands for no weapon too.
    /// `None` for a weapon that does damage and takes no time between two
    /// volleys.
    pub open spec fn spec_dps(self) -> Option<u64> {
        if self.damage == 0 {
            Some(0)
        } else if self.speed > 0 {
            Some((self.damage as int * SCALE * SCALE / (self.speed as int)) as u64)
        } else {
            None
        }
    }

    /// Damage in one second; see [`WeaponStats::spec_dps`].
    pub fn dps(&self) -> (r: Option<u64>)
        ensures
            r == self.spec_dps(),
    {
        if self.damage == 0 {
            Some(0)
        } else if self.speed > 0 {
            let d: u64 = self.damage as u64 * (SCALE as u64) * (SCALE as u64);
            let q = d / (self.speed as u64);
            proof {
                let a = self.damage as int * SCALE * SCALE;
                assert(0 <= a / (self.speed as int) <= a) by (nonlinear_arith)
                    requires
                        a >= 0,
                        self.speed >= 1,
                ;
            }
            Some(q)
        } else {
            None
        }
    }
}

/// The buff with which a raven's missile lowers the armor of its target.
pub open spec fn anti_armor_buff() -> BuffId {
    BuffId::RavenShredderMissileArmorReduction
}

/// The weapons that the rules list for the type `t` among those that the
/// game does not tell of; none where they list none.
pub open spec fn missed_weapons(list: Seq<(UnitTypeId, Vec<Weapon>)>, t: UnitTypeId) -> Option<
    Seq<Weapon>,
>
    decreases list.len(),
{
    if list.len() == 0 {
        None
    } else if list[0].0 == t {
        Some(list[0].1@)
    } else {
        missed_weapons(list.skip(1), t)
    }
}

/// The weapons that the game tells of for the type `t`; none where the rules
/// do not know the type.
pub open spec fn listed_weapons(data: &GameData, t: UnitTypeId) -> Seq<Weapon> {
    match data.spec_unit(t) {
        Some(d) => d.weapons@,
        None => Seq::empty(),
    }
}

/// The weapons of a unit.
///
/// A changeling has none. A baneling has those that the rules list for it,
/// burrowed or in its cocoon too. A ravager in its cocoon has those of a
/// ravager. Any other unit has those that the game tells of for its type,
/// and where the game tells of none, those that the rules list for it.
pub open spec fn weapons_of(u: UnitView, data: &GameData) -> Seq<Weapon> {
    let t = u.type_id;
    if t.spec_is_changeling() {
        Seq::empty()
    } else if t == UnitTypeId::Baneling || t == UnitTypeId::BanelingBurrowed || t
        == UnitTypeId::BanelingCocoon {
        match missed_weapons(data.missed_weapons@, UnitTypeId::Baneling) {
            Some(w) => w,
            None => Seq::empty(),
        }
    } else if t == UnitTypeId::RavagerCocoon {
        listed_weapons(data, UnitTypeId::Ravager)
    } else if listed_weapons(data, t).len() > 0 {
        listed_weapons(data, t)
    } else {
        match missed_weapons(data.missed_weapons@, t) {
            Some(w) => w,
            None => Seq::empty(),
        }
    }
}

/// By how much the time between two volleys of the unit is multiplied: the
/// first number over the second. Stimpacks make it two thirds, a time warp
/// twice as long, the attack speed upgrades of zergling and adept five
/// sevenths and twenty twenty-ninths.
pub open spec fn speed_factor(u: UnitView, upgrades: Seq<UpgradeId>) -> (int, int) {
    let a: (int, int) = if u.has_buff(BuffId::Stimpack) {
        (2, 3)
    } else {
        (1, 1)
    };
    let b: (int, int) = if u.has_buff(BuffId::StimpackMarauder) {
        (2 * a.0, 3 * a.1)
    } else {
        a
    };
    let c: (int, int) = if u.has_buff(BuffId::TimeWarpProduction) {
        (2 * b.0, b.1)
    } else {
        b
    };
    if u.type_id == UnitTypeId::Zergling && has_upgrade_in(upgrades, UpgradeId::Zerglingattackspeed) {
        (5 * c.0, 7 * c.1)
    } else if u.type_id == UnitTypeId::Adept && has_upgrade_in(
        upgrades,
        UpgradeId::AdeptPiercingAttack,
    ) {
        (20 * c.0, 29 * c.1)
    } else {
        c
    }
}

/// What the upgrades of the unit's owner add to the range of its weapons,
/// in 4096ths.
pub open spec fn range_bonus(u: UnitView, upgrades: Seq<UpgradeId>) -> int {
    let t = u.type_id;
    if t == UnitTypeId::Hydralisk && has_upgrade_in(upgrades, UpgradeId::EvolveGroovedSpines) {
        SCALE as int
    } else if t == UnitTypeId::Phoenix && has_upgrade_in(upgrades, UpgradeId::PhoenixRangeUpgrade) {
        2 * SCALE
    } else if t == UnitTypeId::LurkerMPBurrowed && has_upgrade_in(upgrades, UpgradeId::LurkerRange) {
        2 * SCALE
    } else if (t == UnitTypeId::PlanetaryFortress || t == UnitTypeId::MissileTurret || t
        == UnitTypeId::AutoTurret) && has_upgrade_in(upgrades, UpgradeId::HiSecAutoTracking) {
        SCALE as int
    } else {
        0
    }
}

/// A number kept within the range of `i32`.
pub open spec fn clamp_i32(x: int) -> i32 {
    if x > i32::MAX {
        i32::MAX
    } else if x < i32::MIN {
        i32::MIN
    } else {
        x as i32
    }
}

/// A number that is not negative, kept within the range of `u32`.
pub open spec fn clamp_u32(x: int) -> u32 {
    if x > u32::MAX {
        u32::MAX
    } else if x < 0 {
        0
    } else {
        x as u32
    }
}

/// The first entry of the list for the type `t` and the target `target`.
pub open spec fn upgrade_bonus(list: Seq<UpgradeBonus>, t: UnitTypeId, target: TargetType) -> Option<
    UpgradeBonus,
>
    decreases list.len(),
{
    if list.len() == 0 {
        None
    } else if list[0].unit == t && list[0].target == target {
        Some(list[0])
    } else {
        upgrade_bonus(list.skip(1), t, target)
    }
}

/// What the first entry of the list for `attribute` gives; nothing where the
/// list has none.
pub open spec fn bonus_for(list: Seq<(Attribute, u32)>, attribute: Attribute) -> u32
    decreases list.len(),
{
    if list.len() == 0 {
        0
    } else if list[0].0 == attribute {
        list[0].1
    } else {
        bonus_for(list.skip(1), attribute)
    }
}

/// What each level of the attack upgrade adds to the damage of the weapon.
pub open spec fn damage_per_level(u: UnitView, w: Weapon, data: &GameData) -> int {
    match upgrade_bonus(data.damage_bonus_per_upgrade@, u.type_id, w.target) {
        Some(b) => match b.damage {
            Some(d) => d as int,
            None => 1,
        },
        None => 1,
    }
}

/// What each level of the attack upgrade adds to the additional damage of
/// the weapon against `attribute`.
pub open spec fn bonus_per_level(
    u: UnitView,
    w: Weapon,
    attribute: Attribute,
    upgrades: Seq<UpgradeId>,
    data: &GameData,
) -> int {
    let listed: int = match upgrade_bonus(data.damage_bonus_per_upgrade@, u.type_id, w.target) {
        Some(b) => bonus_for(b.bonus@, attribute) as int,
        None => 0,
    };
    let barrels: int = if attribute == Attribute::Light && has_upgrade_in(
        upgrades,
        UpgradeId::HighCapacityBarrels,
    ) {
        if u.type_id == UnitTypeId::Hellion {
            5
        } else if u.type_id == UnitTypeId::HellionTank {
            12
        } else {
            0
        }
    } else {
        0
    };
    listed + barrels
}

/// The additional damage that the entry `(attribute, bonus)` of the weapon
/// gives against a target with the attribute.
pub open spec fn bonus_of(
    u: UnitView,
    w: Weapon,
    entry: (Attribute, u32),
    upgrades: Seq<UpgradeId>,
    data: &GameData,
) -> int {
    entry.1 + u.attack_upgrade_level * bonus_per_level(u, w, entry.0, upgrades, data) + if entry.0
        == Attribute::Armored && u.has_buff(BuffId::VoidRaySwarmDamageBoost) {
        6int
    } else {
        0int
    }
}

/// The greatest additional damage that the first `n` entries of the weapon
/// give against a target with the attributes; nothing where none applies.
pub open spec fn best_bonus(
    u: UnitView,
    w: Weapon,
    attributes: Seq<Attribute>,
    upgrades: Seq<UpgradeId>,
    data: &GameData,
    n: int,
) -> int
    decreases n,
{
    if n <= 0 {
        0
    } else {
        let before = best_bonus(u, w, attributes, upgrades, data, n - 1);
        let entry = w.damage_bonus@[n - 1];
        if has_attr(attributes, entry.0) && bonus_of(u, w, entry, upgrades, data) > before {
            bonus_of(u, w, entry, upgrades, data)
        } else {
            before
        }
    }
}

/// Damage of one attack of the weapon against a target with the attributes,
/// before armor.
pub open spec fn attack_damage(
    u: UnitView,
    w: Weapon,
    attributes: Seq<Attribute>,
    upgrades: Seq<UpgradeId>,
    data: &GameData,
) -> int {
    w.damage + u.attack_upgrade_level * damage_per_level(u, w, data) + best_bonus(
        u,
        w,
        attributes,
        upgrades,
        data,
        w.damage_bonus@.len() as int,
    )
}

/// Time between two volleys of the weapon, with buffs and upgrades; in
/// 4096ths of a second, rounded down.
pub open spec fn weapon_speed(u: UnitView, w: Weapon, upgrades: Seq<UpgradeId>) -> i32 {
    let f = speed_factor(u, upgrades);
    clamp_i32(w.speed * f.0 / f.1)
}

/// Range of the weapon, with upgrades; in 4096ths.
pub open spec fn weapon_range(u: UnitView, w: Weapon, upgrades: Seq<UpgradeId>) -> i32 {
    clamp_i32(w.range + range_bonus(u, upgrades))
}

/// What protects a target.
pub struct Defence {
    /// Armor of the target.
    pub armor: int,
    /// Armor of the target's shield.
    pub shield_armor: int,
    /// Whether a guardian shield covers the target.
    pub guarded: bool,
    /// Shield of the target, where it has any.
    pub shield: Option<u32>,
    /// Health of the target, where it is known.
    pub health: Option<u32>,
}

/// What protects the target `t`, whose owner has the upgrades `upgrades`.
pub open spec fn defence_of(t: UnitView, upgrades: Seq<UpgradeId>, data: &GameData) -> Defence {
    let base_armor: int = match data.spec_unit(t.type_id) {
        Some(d) => d.armor as int,
        None => 0,
    };
    let weakened: int = if t.has_buff(anti_armor_buff()) {
        3
    } else {
        0
    };
    let plated: int = if upgrades.len() > 0 {
        if t.race(data) == Race::Terran {
            if t.is_structure(data) && has_upgrade_in(upgrades, UpgradeId::TerranBuildingArmor) {
                2
            } else {
                0
            }
        } else if (t.type_id == UnitTypeId::Ultralisk || t.type_id == UnitTypeId::UltraliskBurrowed)
            && has_upgrade_in(upgrades, UpgradeId::ChitinousPlating) {
            2
        } else {
            0
        }
    } else {
        0
    };
    Defence {
        armor: base_armor + t.armor_upgrade_level - weakened + plated,
        shield_armor: t.shield_upgrade_level - weakened,
        guarded: t.has_buff(BuffId::GuardianShield),
        shield: t.shield,
        health: t.health,
    }
}

/// Damage of one attack after `armor`: at least one.
pub open spec fn after_armor(damage: int, armor: int) -> int {
    if damage - armor > 1 {
        damage - armor
    } else {
        1
    }
}

/// What `attacks` attacks of `exact` damage each do to a shield of `shield`
/// when `dealt` was dealt already: the damage dealt to the shield, what of
/// it goes through to the health, and the attacks that are left. The attack
/// that takes the shield down is seen to have done so before the next one.
pub open spec fn on_shield(exact: int, shield: int, attacks: nat, dealt: int) -> (int, int, nat)
    decreases attacks,
{
    if attacks == 0 {
        (dealt, 0, 0)
    } else if dealt >= shield {
        (dealt, dealt - shield, attacks)
    } else {
        on_shield(exact, shield, (attacks - 1) as nat, dealt + exact)
    }
}

/// What `attacks` attacks of `exact` damage each do to a health of `health`
/// when `dealt` was dealt already.
pub open spec fn on_health(exact: int, health: int, attacks: nat, dealt: int) -> int
    decreases attacks,
{
    if attacks == 0 || dealt >= health {
        dealt
    } else {
        on_health(exact, health, (attacks - 1) as nat, dealt + exact)
    }
}

/// Damage of one volley of `attacks` attacks of `damage` each, fired from
/// `range`, against what protects a target. A guardian shield takes two off
/// each attack from a range of two or more.
pub open spec fn volley(damage: int, attacks: nat, range: int, d: Defence) -> int {
    let guard: int = if d.guarded && range >= 2 * SCALE {
        2
    } else {
        0
    };
    let (shield_damage, through, left) = match d.shield {
        Some(s) => if s > 0 {
            on_shield(after_armor(damage, d.shield_armor + guard), s as int, attacks, 0)
        } else {
            (0int, 0int, attacks)
        },
        None => (0int, 0int, attacks),
    };
    let health_damage = match d.health {
        Some(h) => if h > 0 {
            on_health(after_armor(damage, d.armor + guard), h as int, left, through)
        } else {
            through
        },
        None => through,
    };
    shield_damage + health_damage
}

/// What the weapon does against a target with the attributes; against what
/// protects a unit where `defence` is given, else against nothing.
pub open spec fn stats_of(
    u: UnitView,
    w: Weapon,
    attributes: Seq<Attribute>,
    defence: Option<Defence>,
    upgrades: Seq<UpgradeId>,
    data: &GameData,
) -> WeaponStats {
    let damage = attack_damage(u, w, attributes, upgrades, data);
    let range = weapon_range(u, w, upgrades);
    WeaponStats {
        damage: clamp_u32(
            match defence {
                Some(d) => volley(damage, w.attacks as nat, range as int, d),
                None => damage * w.attacks,
            },
        ),
        speed: weapon_speed(u, w, upgrades),
        range,
    }
}

/// Whether the weapon can be fired at a target that cannot be hit by
/// weapons for `not_target` only.
pub open spec fn can_hit(w: Weapon, not_target: TargetType) -> bool {
    not_target == TargetType::Any || w.target != not_target
}

/// What the best of the first `n` weapons does: that of the greatest damage,
/// the last of those that do the same. Nothing where none can hit.
pub open spec fn best_stats(
    u: UnitView,
    weapons: Seq<Weapon>,
    not_target: TargetType,
    attributes: Seq<Attribute>,
    defence: Option<Defence>,
    upgrades: Seq<UpgradeId>,
    data: &GameData,
    n: int,
) -> Option<WeaponStats>
    decreases n,
{
    if n <= 0 {
        None
    } else {
        let before = best_stats(u, weapons, not_target, attributes, defence, upgrades, data, n - 1);
        let w = weapons[n - 1];
        if can_hit(w, not_target) {
            let s = stats_of(u, w, attributes, defence, upgrades, data);
            match before {
                Some(b) => if s.damage >= b.damage {
                    Some(s)
                } else {
                    before
                },
                None => Some(s),
            }
        } else {
            before
        }
    }
}

/// A weapon that does nothing.
pub open spec fn no_weapon() -> WeaponStats {
    WeaponStats { damage: 0, speed: 0, range: 0 }
}

/// What the unit's weapons do against a target that weapons for
/// `not_target` only cannot hit, with the attributes and, where it is a
/// unit, the defence given.
///
/// An oracle whose weapon is not switched on does nothing. Of the weapons
/// that can hit the target the one of the greatest damage counts. A weapon
/// that takes no time between two volleys does no damage.
pub open spec fn weapon_stats(
    u: UnitView,
    not_target: TargetType,
    attributes: Seq<Attribute>,
    defence: Option<Defence>,
    upgrades: Seq<UpgradeId>,
    data: &GameData,
) -> WeaponStats {
    if u.type_id == UnitTypeId::Oracle && !u.has_buff(BuffId::OracleWeapon) {
        no_weapon()
    } else {
        let weapons = weapons_of(u, data);
        match best_stats(
            u,
            weapons,
            not_target,
            attributes,
            defence,
            upgrades,
            data,
            weapons.len() as int,
        ) {
            Some(s) => WeaponStats {
                damage: if s.speed == 0 {
                    0
                } else {
                    s.damage
                },
                ..s
            },
            None => no_weapon(),
        }
    }
}

/// What cannot hit the target `t`: weapons for the ground cannot hit a
/// flying unit, weapons for the air no other; a colossus is hit by both.
pub open spec fn not_target_of(t: UnitView) -> TargetType {
    if t.type_id == UnitTypeId::Colossus {
        TargetType::Any
    } else if t.is_flying {
        TargetType::Ground
    } else {
        TargetType::Air
    }
}

/// What cannot hit a target of the kind `target`.
pub open spec fn not_target_for(target: TargetType) -> TargetType {
    match target {
        TargetType::Any => TargetType::Any,
        TargetType::Ground => TargetType::Air,
        TargetType::Air => TargetType::Ground,
    }
}

/// The attributes of the type of a unit; none where the rules do not know
/// the type.
pub open spec fn attributes_of(t: UnitView, data: &GameData) -> Seq<Attribute> {
    match data.spec_unit(t.type_id) {
        Some(d) => d.attributes@,
        None => Seq::empty(),
    }
}

/// Target of a weapon.
pub enum CalcTarget<'a> {
    /// A unit.
    Unit(&'a Unit),
    /// Any target of a kind with some attributes.
    Abstract(TargetType, &'a Vec<Attribute>),
}

/// Looks up the weapons that the rules list for a type.
fn find_missed(list: &Vec<(UnitTypeId, Vec<Weapon>)>, t: UnitTypeId) -> (r: Option<&Vec<Weapon>>)
    ensures
        match r {
            Some(w) => missed_weapons(list@, t) == Some(w@),
            None => missed_weapons(list@, t).is_none(),
        },
{
    let mut i: usize = 0;
    assert(list@.skip(0) =~= list@);
    while i < list.len()
        invariant
            i <= list.len(),
            missed_weapons(list@, t) == missed_weapons(list@.skip(i as int), t),
        decreases list.len() - i,
    {
        assert(list@.skip(i as int)[0] == list@[i as int]);
        assert(list@.skip(i as int).skip(1) =~= list@.skip(i + 1));
        if list[i].0 == t {
            return Some(&list[i].1);
        }
        i += 1;
    }
    None
}

/// Looks up what the attack upgrade adds for a type and a target.
fn find_upgrade_bonus(list: &Vec<UpgradeBonus>, t: UnitTypeId, target: TargetType) -> (r: Option<
    &UpgradeBonus,
>)
    ensures
        match r {
            Some(b) => upgrade_bonus(list@, t, target) == Some(*b),
            None => upgrade_bonus(list@, t, target).is_none(),
        },
{
    let mut i: usize = 0;
    assert(list@.skip(0) =~= list@);
    while i < list.len()
        invariant
            i <= list.len(),
            upgrade_bonus(list@, t, target) == upgrade_bonus(list@.skip(i as int), t, target),
        decreases list.len() - i,
    {
        assert(list@.skip(i as int)[0] == list@[i as int]);
        assert(list@.skip(i as int).skip(1) =~= list@.skip(i + 1));
        if list[i].unit == t && list[i].target == target {
            return Some(&list[i]);
        }
        i += 1;
    }
    None
}

/// Looks up what a list gives for an attribute.
fn find_bonus(list: &Vec<(Attribute, u32)>, attribute: Attribute) -> (r: u32)
    ensures
        r == bonus_for(list@, attribute),
{
    let mut i: usize = 0;
    assert(list@.skip(0) =~= list@);
    while i < list.len()
        invariant
            i <= list.len(),
            bonus_for(list@, attribute) == bonus_for(list@.skip(i as int), attribute),
        decreases list.len() - i,
    {
        assert(list@.skip(i as int)[0] == list@[i as int]);
        assert(list@.skip(i as int).skip(1) =~= list@.skip(i + 1));
        if list[i].0 == attribute {
            return list[i].1;
        }
        i += 1;
    }
    0
}

impl Unit {
    /// The weapons of the unit; see [`weapons_of`].
    pub fn weapons<'a>(&self, data: &'a GameData) -> (r: &'a [Weapon])
        ensures
            r@ == weapons_of(self@, data),
    {
        let t = self.type_id;
        if t.is_changeling() {
            let r: &[Weapon] = &[];
            assert(r@ =~= Seq::<Weapon>::empty());
            r
        } else if matches!(
            t,
            UnitTypeId::Baneling | UnitTypeId::BanelingBurrowed | UnitTypeId::BanelingCocoon
        ) {
            match find_missed(&data.missed_weapons, UnitTypeId::Baneling) {
                Some(w) => w.as_slice(),
                None => {
                    let r: &[Weapon] = &[];
                    assert(r@ =~= Seq::<Weapon>::empty());
                    r
                },
            }
        } else if t == UnitTypeId::RavagerCocoon {
            match data.unit(UnitTypeId::Ravager) {
                Some(d) => d.weapons.as_slice(),
                None => {
                    let r: &[Weapon] = &[];
                    assert(r@ =~= Seq::<Weapon>::empty());
                    r
                },
            }
        } else {
            let listed: Option<&[Weapon]> = match data.unit(t) {
                Some(d) => if d.weapons.len() > 0 {
                    Some(d.weapons.as_slice())
                } else {
                    None
                },
                None => None,
            };
            match listed {
                Some(w) => w,
                None => match find_missed(&data.missed_weapons, t) {
                    Some(w) => w.as_slice(),
                    None => {
                        let r: &[Weapon] = &[];
                        assert(r@ =~= Seq::<Weapon>::empty());
                        r
                    },
                },
            }
        }
    }

    /// Checks if the unit has a weapon.
    pub fn can_attack(&self, data: &GameData) -> (r: bool)
        ensures
            r == (weapons_of(self@, data).len() > 0),
    {
        self.weapons(data).len() > 0
    }
}

/// What protects a target, as the calculation holds it.
#[derive(Debug, Clone, Copy, PartialEq, Eq, Structural)]
pub struct Protection {
    /// Armor of the target.
    pub armor: i64,
    /// Armor of the target's shield.
    pub shield_armor: i64,
    /// Whether a guardian shield covers the target.
    pub guarded: bool,
    /// Shield of the target, where it has any.
    pub shield: Option<u32>,
    /// Health of the target, where it is known.
    pub health: Option<u32>,
}

impl View for Protection {
    type V = Defence;

    open spec fn view(&self) -> Defence {
        Defence {
            armor: self.armor as int,
            shield_armor: self.shield_armor as int,
            guarded: self.guarded,
            shield: self.shield,
            health: self.health,
        }
    }
}

/// The view of what protects a target, where there is a target.
pub open spec fn defence_view(p: Option<Protection>) -> Option<Defence> {
    match p {
        Some(d) => Some(d@),
        None => None,
    }
}

/// What protects the target `t`; see [`defence_of`].
pub fn protection_of(t: &Unit, upgrades: &Vec<UpgradeId>, data: &GameData) -> (r: Protection)
    ensures
        r@ == defence_of(t@, upgrades@, data),
        -0x1_0000_0010 <= r.armor <= 0x1_0000_0010,
        -0x1_0000_0010 <= r.shield_armor <= 0x1_0000_0010,
{
    let base_armor: i64 = t.armor(data) as i64;
    let weakened: i64 = if t.has_buff(BuffId::RavenShredderMissileArmorReduction) {
        3
    } else {
        0
    };
    let plated: i64 = if upgrades.len() > 0 {
        if t.race(data).is_terran() {
            if t.is_structure(data) && contains_upgrade(upgrades, UpgradeId::TerranBuildingArmor) {
                2
            } else {
                0
            }
        } else if matches!(t.type_id, UnitTypeId::Ultralisk | UnitTypeId::UltraliskBurrowed)
            && contains_upgrade(upgrades, UpgradeId::ChitinousPlating) {
            2
        } else {
            0
        }
    } else {
        0
    };
    Protection {
        armor: base_armor + t.armor_upgrade_level as i64 - weakened + plated,
        shield_armor: t.shield_upgrade_level as i64 - weakened,
        guarded: t.has_buff(BuffId::GuardianShield),
        shield: t.shield,
        health: t.health,
    }
}

/// By how much the time between two volleys is multiplied; see
/// [`speed_factor`].
pub fn speed_factor_of(u: &Unit, upgrades: &Vec<UpgradeId>) -> (r: (i64, i64))
    ensures
        speed_factor(u@, upgrades@) == (r.0 as int, r.1 as int),
        1 <= r.0 <= 160,
        1 <= r.1 <= 261,
{
    let mut num: i64 = 1;
    let mut den: i64 = 1;
    if u.has_buff(BuffId::Stimpack) {
        num = 2;
        den = 3;
    }
    if u.has_buff(BuffId::StimpackMarauder) {
        num = 2 * num;
        den = 3 * den;
    }
    if u.has_buff(BuffId::TimeWarpProduction) {
        num = 2 * num;
    }
    if u.type_id == UnitTypeId::Zergling && contains_upgrade(
        upgrades,
        UpgradeId::Zerglingattackspeed,
    ) {
        (5 * num, 7 * den)
    } else if u.type_id == UnitTypeId::Adept && contains_upgrade(
        upgrades,
        UpgradeId::AdeptPiercingAttack,
    ) {
        (20 * num, 29 * den)
    } else {
        (num, den)
    }
}

/// What the upgrades add to the range of the unit's weapons; see
/// [`range_bonus`].
pub fn range_bonus_of(u: &Unit, upgrades: &Vec<UpgradeId>) -> (r: i32)
    ensures
        r == range_bonus(u@, upgrades@),
{
    let t = u.type_id;
    if t == UnitTypeId::Hydralisk && contains_upgrade(upgrades, UpgradeId::EvolveGroovedSpines) {
        SCALE
    } else if t == UnitTypeId::Phoenix && contains_upgrade(upgrades, UpgradeId::PhoenixRangeUpgrade) {
        2 * SCALE
    } else if t == UnitTypeId::LurkerMPBurrowed && contains_upgrade(upgrades, UpgradeId::LurkerRange) {
        2 * SCALE
    } else if matches!(
        t,
        UnitTypeId::PlanetaryFortress | UnitTypeId::MissileTurret | UnitTypeId::AutoTurret
    ) && contains_upgrade(upgrades, UpgradeId::HiSecAutoTracking) {
        SCALE
    } else {
        0
    }
}

/// Checks if a list of attributes holds `attribute`.
fn slice_has(attributes: &[Attribute], attribute: Attribute) -> (r: bool)
    ensures
        r == has_attr(attributes@, attribute),
{
    let mut i: usize = 0;
    while i < attributes.len()
        invariant
            i <= attributes.len(),
            forall|j: int| 0 <= j < i ==> attributes@[j] != attribute,
        decreases attributes.len() - i,
    {
        if attributes[i] == attribute {
            return true;
        }
        i += 1;
    }
    false
}

/// Damage of one attack of the weapon against a target with the attributes,
/// before armor; see [`attack_damage`].
pub fn attack_damage_of(
    u: &Unit,
    w: &Weapon,
    attributes: &[Attribute],
    upgrades: &Vec<UpgradeId>,
    data: &GameData,
) -> (r: i128)
    ensures
        r == attack_damage(u@, *w, attributes@, upgrades@, data),
        0 <= r <= 0x4_0000_0000_0000_0000,
{
    let level = u.attack_upgrade_level as i128;
    let entry = find_upgrade_bonus(&data.damage_bonus_per_upgrade, u.type_id, w.target);
    let per_level: i128 = match entry {
        Some(b) => match b.damage {
            Some(d) => d as i128,
            None => 1,
        },
        None => 1,
    };
    assert(0 <= level * per_level <= 0xffff_ffff * 0xffff_ffff) by (nonlinear_arith)
        requires
            0 <= level <= 0xffff_ffff,
            0 <= per_level <= 0xffff_ffff,
    ;
    let barrels = contains_upgrade(upgrades, UpgradeId::HighCapacityBarrels);
    let boosted = u.has_buff(BuffId::VoidRaySwarmDamageBoost);
    let mut best: i128 = 0;
    let mut i: usize = 0;
    while i < w.damage_bonus.len()
        invariant
            i <= w.damage_bonus.len(),
            level == u.attack_upgrade_level,
            barrels == has_upgrade_in(upgrades@, UpgradeId::HighCapacityBarrels),
            boosted == u@.has_buff(BuffId::VoidRaySwarmDamageBoost),
            match entry {
                Some(b) => upgrade_bonus(data.damage_bonus_per_upgrade@, u@.type_id, w.target)
                    == Some(*b),
                None => upgrade_bonus(data.damage_bonus_per_upgrade@, u@.type_id, w.target).is_none(),
            },
            best == best_bonus(u@, *w, attributes@, upgrades@, data, i as int),
            0 <= best <= 0x2_0000_0000_0000_0000,
        decreases w.damage_bonus.len() - i,
    {
        let (attribute, bonus) = w.damage_bonus[i];
        if slice_has(attributes, attribute) {
            let listed: i128 = match entry {
                Some(b) => find_bonus(&b.bonus, attribute) as i128,
                None => 0,
            };
            let extra: i128 = if attribute == Attribute::Light && barrels {
                if u.type_id == UnitTypeId::Hellion {
                    5
                } else if u.type_id == UnitTypeId::HellionTank {
                    12
                } else {
                    0
                }
            } else {
                0
            };
            let each = listed + extra;
            assert(0 <= level * each <= 0xffff_ffff * 0x1_0000_000b) by (nonlinear_arith)
                requires
                    0 <= level <= 0xffff_ffff,
                    0 <= each <= 0x1_0000_000b,
            ;
            let mut total: i128 = bonus as i128 + level * each;
            if attribute == Attribute::Armored && boosted {
                total = total + 6;
            }
            assert(total == bonus_of(u@, *w, w.damage_bonus@[i as int], upgrades@, data));
            if total > best {
                best = total;
            }
        }
        i += 1;
    }
    w.damage as i128 + level * per_level + best
}

/// What `attacks` attacks of `exact` damage each do to a shield; see
/// [`on_shield`].
fn hit_shield(exact: i128, shield: u32, attacks: u32) -> (r: (i128, i128, u32))
    requires
        1 <= exact <= 0x8_0000_0000_0000_0000,
    ensures
        on_shield(exact as int, shield as int, attacks as nat, 0) == (
            r.0 as int,
            r.1 as int,
            r.2 as nat,
        ),
        0 <= r.0 <= 0x8_0000_0000_0000_0000 * 0x1_0000_0000,
        0 <= r.1 <= r.0,
        r.2 <= attacks,
{
    let mut dealt: i128 = 0;
    let mut left: u32 = attacks;
    let ghost mut done: int = 0;
    while left > 0
        invariant
            1 <= exact <= 0x8_0000_0000_0000_0000,
            left <= attacks,
            done == attacks - left,
            dealt == done * exact,
            on_shield(exact as int, shield as int, left as nat, dealt as int) == on_shield(
                exact as int,
                shield as int,
                attacks as nat,
                0,
            ),
        decreases left,
    {
        proof {
            assert(0 <= done * exact <= 0xffff_ffff * 0x8_0000_0000_0000_0000) by (nonlinear_arith)
                requires
                    0 <= done <= 0xffff_ffff,
                    1 <= exact <= 0x8_0000_0000_0000_0000,
            ;
            assert((done + 1) * exact == done * exact + exact) by (nonlinear_arith);
        }
        if dealt >= shield as i128 {
            return (dealt, dealt - shield as i128, left);
        }
        dealt = dealt + exact;
        left = left - 1;
        proof {
            done = done + 1;
        }
    }
    proof {
        assert(0 <= done * exact <= 0x1_0000_0000 * 0x8_0000_0000_0000_0000) by (nonlinear_arith)
            requires
                0 <= done <= 0x1_0000_0000,
                1 <= exact <= 0x8_0000_0000_0000_0000,
        ;
    }
    (dealt, 0, 0)
}

/// What `attacks` attacks of `exact` damage each do to a health; see
/// [`on_health`].
fn hit_health(exact: i128, health: u32, attacks: u32, through: i128) -> (r: i128)
    requires
        1 <= exact <= 0x8_0000_0000_0000_0000,
        0 <= through <= 0x8_0000_0000_0000_0000 * 0x1_0000_0000,
    ensures
        r == on_health(exact as int, health as int, attacks as nat, through as int),
        0 <= r <= 0x8_0000_0000_0000_0000 * 0x2_0000_0000,
{
    let mut dealt: i128 = through;
    let mut left: u32 = attacks;
    let ghost mut done: int = 0;
    while left > 0
        invariant
            1 <= exact <= 0x8_0000_0000_0000_0000,
            0 <= through <= 0x8_0000_0000_0000_0000 * 0x1_0000_0000,
            left <= attacks,
            done == attacks - left,
            dealt == through + done * exact,
            on_health(exact as int, health as int, left as nat, dealt as int) == on_health(
                exact as int,
                health as int,
                attacks as nat,
                through as int,
            ),
        decreases left,
    {
        proof {
            assert(0 <= done * exact <= 0xffff_ffff * 0x8_0000_0000_0000_0000) by (nonlinear_arith)
                requires
                    0 <= done <= 0xffff_ffff,
                    1 <= exact <= 0x8_0000_0000_0000_0000,
            ;
            assert((done + 1) * exact == done * exact + exact) by (nonlinear_arith);
        }
        if dealt >= health as i128 {
            return dealt;
        }
        dealt = dealt + exact;
        left = left - 1;
        proof {
            done = done + 1;
        }
    }
    proof {
        assert(0 <= done * exact <= 0x1_0000_0000 * 0x8_0000_0000_0000_0000) by (nonlinear_arith)
            requires
                0 <= done <= 0x1_0000_0000,
                1 <= exact <= 0x8_0000_0000_0000_0000,
        ;
    }
    dealt
}

/// Damage of one volley against what protects a target; see [`volley`].
pub fn volley_on(damage: i128, attacks: u32, range: i32, d: &Protection) -> (r: i128)
    requires
        0 <= damage <= 0x4_0000_0000_0000_0000,
        -0x1_0000_0010 <= d.armor <= 0x1_0000_0010,
        -0x1_0000_0010 <= d.shield_armor <= 0x1_0000_0010,
    ensures
        r == volley(damage as int, attacks as nat, range as int, d@),
        0 <= r,
{
    let guard: i128 = if d.guarded && range as i64 >= 2 * (SCALE as i64) {
        2
    } else {
        0
    };
    let (shield_damage, through, left) = match d.shield {
        Some(s) => if s > 0 {
            let cut = damage - (d.shield_armor as i128 + guard);
            let exact: i128 = if cut > 1 {
                cut
            } else {
                1
            };
            hit_shield(exact, s, attacks)
        } else {
            (0, 0, attacks)
        },
        None => (0, 0, attacks),
    };
    let health_damage = match d.health {
        Some(h) => if h > 0 {
            let cut = damage - (d.armor as i128 + guard);
            let exact: i128 = if cut > 1 {
                cut
            } else {
                1
            };
            hit_health(exact, h, left, through)
        } else {
            through
        },
        None => through,
    };
    shield_damage + health_damage
}

/// A number kept within the range of `i32`.
fn to_i32(x: i128) -> (r: i32)
    ensures
        r == clamp_i32(x as int),
{
    if x > i32::MAX as i128 {
        i32::MAX
    } else if x < i32::MIN as i128 {
        i32::MIN
    } else {
        x as i32
    }
}

/// A number that is not negative, kept within the range of `u32`.
fn to_u32(x: i128) -> (r: u32)
    ensures
        r == clamp_u32(x as int),
{
    if x > u32::MAX as i128 {
        u32::MAX
    } else if x < 0 {
        0
    } else {
        x as u32
    }
}

/// What the weapon does against a target; see [`stats_of`].
pub fn weapon_stats_of(
    u: &Unit,
    w: &Weapon,
    attributes: &[Attribute],
    defence: &Option<Protection>,
    upgrades: &Vec<UpgradeId>,
    data: &GameData,
) -> (r: WeaponStats)
    requires
        match *defence {
            Some(d) => -0x1_0000_0010 <= d.armor <= 0x1_0000_0010 && -0x1_0000_0010
                <= d.shield_armor <= 0x1_0000_0010,
            None => true,
        },
    ensures
        r == stats_of(u@, *w, attributes@, defence_view(*defence), upgrades@, data),
{
    let damage = attack_damage_of(u, w, attributes, upgrades, data);
    let range = to_i32(w.range as i128 + range_bonus_of(u, upgrades) as i128);
    let f = speed_factor_of(u, upgrades);
    assert(-0x8000_0000 * 160 <= w.speed * f.0 <= 0x8000_0000 * 160) by (nonlinear_arith)
        requires
            -0x8000_0000 <= w.speed <= 0x8000_0000,
            1 <= f.0 <= 160,
    ;
    let speed = to_i32(crate::geometry::quotient((w.speed as i128) * (f.0 as i128), f.1 as i128));
    let total: i128 = match defence {
        Some(d) => volley_on(damage, w.attacks, range, d),
        None => {
            assert(0 <= damage * w.attacks <= 0x4_0000_0000_0000_0000 * 0xffff_ffff)
                by (nonlinear_arith)
                requires
                    0 <= damage <= 0x4_0000_0000_0000_0000,
                    0 <= w.attacks <= 0xffff_ffff,
            ;
            damage * (w.attacks as i128)
        },
    };
    WeaponStats { damage: to_u32(total), speed, range }
}

/// What the unit's weapons do against a target; see [`weapon_stats`].
pub fn best_weapon_stats(
    u: &Unit,
    not_target: TargetType,
    attributes: &[Attribute],
    defence: &Option<Protection>,
    upgrades: &Vec<UpgradeId>,
    data: &GameData,
) -> (r: WeaponStats)
    requires
        match *defence {
            Some(d) => -0x1_0000_0010 <= d.armor <= 0x1_0000_0010 && -0x1_0000_0010
                <= d.shield_armor <= 0x1_0000_0010,
            None => true,
        },
    ensures
        r == weapon_stats(u@, not_target, attributes@, defence_view(*defence), upgrades@, data),
{
    if u.type_id == UnitTypeId::Oracle && !u.has_buff(BuffId::OracleWeapon) {
        return WeaponStats { damage: 0, speed: 0, range: 0 };
    }
    let weapons = u.weapons(data);
    let mut best: Option<WeaponStats> = None;
    let mut i: usize = 0;
    while i < weapons.len()
        invariant
            i <= weapons.len(),
            weapons@ == weapons_of(u@, data),
            match *defence {
                Some(d) => -0x1_0000_0010 <= d.armor <= 0x1_0000_0010 && -0x1_0000_0010
                    <= d.shield_armor <= 0x1_0000_0010,
                None => true,
            },
            best == best_stats(
                u@,
                weapons@,
                not_target,
                attributes@,
                defence_view(*defence),
                upgrades@,
                data,
                i as int,
            ),
        decreases weapons.len() - i,
    {
        let w = &weapons[i];
        if not_target == TargetType::Any || w.target != not_target {
            let s = weapon_stats_of(u, w, attributes, defence, upgrades, data);
            let better = match best {
                Some(b) => s.damage >= b.damage,
                None => true,
            };
            if better {
                best = Some(s);
            }
        }
        i += 1;
    }
    match best {
        Some(s) => WeaponStats {
            damage: if s.speed == 0 {
                0
            } else {
                s.damage
            },
            speed: s.speed,
            range: s.range,
        },
        None => WeaponStats { damage: 0, speed: 0, range: 0 },
    }
}

impl Unit {
    /// What the unit's weapons do against a target, where `upgrades` are the
    /// upgrades of the unit's owner and `target_upgrades` those of the
    /// target's; see [`weapon_stats`].
    pub fn calculate_weapon_stats(
        &self,
        target: CalcTarget,
        upgrades: &Vec<UpgradeId>,
        target_upgrades: &Vec<UpgradeId>,
        data: &GameData,
    ) -> (r: WeaponStats)
        ensures
            r == match target {
                CalcTarget::Unit(t) => weapon_stats(
                    self@,
                    not_target_of(t@),
                    attributes_of(t@, data),
                    Some(defence_of(t@, target_upgrades@, data)),
                    upgrades@,
                    data,
                ),
                CalcTarget::Abstract(kind, attributes) => weapon_stats(
                    self@,
                    not_target_for(kind),
                    attributes@,
                    None,
                    upgrades@,
                    data,
                ),
            },
    {
        match target {
            CalcTarget::Unit(t) => {
                let not_target = if t.type_id == UnitTypeId::Colossus {
                    TargetType::Any
                } else if t.is_flying {
                    TargetType::Ground
                } else {
                    TargetType::Air
                };
                let defence = Some(protection_of(t, target_upgrades, data));
                match data.unit(t.type_id) {
                    Some(d) => best_weapon_stats(
                        self,
                        not_target,
                        d.attributes.as_slice(),
                        &defence,
                        upgrades,
                        data,
                    ),
                    None => {
                        let none: &[Attribute] = &[];
                        assert(none@ =~= Seq::<Attribute>::empty());
                        best_weapon_stats(self, not_target, none, &defence, upgrades, data)
                    },
                }
            },
            CalcTarget::Abstract(kind, attributes) => {
                let not_target = match kind {
                    TargetType::Any => TargetType::Any,
                    TargetType::Ground => TargetType::Air,
                    TargetType::Air => TargetType::Ground,
                };
                best_weapon_stats(self, not_target, attributes.as_slice(), &None, upgrades, data)
            },
        }
    }

    /// What the unit's weapons do against any target with the attributes.
    pub fn real_weapon(&self, attributes: &Vec<Attribute>, upgrades: &Vec<UpgradeId>, data: &GameData) -> (r:
        WeaponStats)
        ensures
            r == weapon_stats(self@, TargetType::Any, attributes@, None, upgrades@, data),
    {
        best_weapon_stats(self, TargetType::Any, attributes.as_slice(), &None, upgrades, data)
    }

    /// What the unit's weapons do against a target on the ground with the
    /// attributes.
    pub fn real_ground_weapon(
        &self,
        attributes: &Vec<Attribute>,
        upgrades: &Vec<UpgradeId>,
        data: &GameData,
    ) -> (r: WeaponStats)
        ensures
            r == weapon_stats(self@, TargetType::Air, attributes@, None, upgrades@, data),
    {
        best_weapon_stats(self, TargetType::Air, attributes.as_slice(), &None, upgrades, data)
    }

    /// What the unit's weapons do against a target in the air with the
    /// attributes.
    pub fn real_air_weapon(
        &self,
        attributes: &Vec<Attribute>,
        upgrades: &Vec<UpgradeId>,
        data: &GameData,
    ) -> (r: WeaponStats)
        ensures
            r == weapon_stats(self@, TargetType::Ground, attributes@, None, upgrades@, data),
    {
        best_weapon_stats(self, TargetType::Ground, attributes.as_slice(), &None, upgrades, data)
    }

    /// What the unit's weapons do against a target of a kind with the
    /// attributes.
    pub fn calculate_weapon_abstract(
        &self,
        target_type: TargetType,
        attributes: &Vec<Attribute>,
        upgrades: &Vec<UpgradeId>,
        data: &GameData,
    ) -> (r: WeaponStats)
        ensures
            r == weapon_stats(
                self@,
                not_target_for(target_type),
                attributes@,
                None,
                upgrades@,
                data,
            ),
    {
        self.calculate_weapon_stats(
            CalcTarget::Abstract(target_type, attributes),
            upgrades,
            upgrades,
            data,
        )
    }

    /// What the unit's weapons do against the unit `target`.
    pub fn real_weapon_vs(
        &self,
        target: &Unit,
        upgrades: &Vec<UpgradeId>,
        target_upgrades: &Vec<UpgradeId>,
        data: &GameData,
    ) -> (r: WeaponStats)
        ensures
            r == weapon_stats(
                self@,
                not_target_of(target@),
                attributes_of(target@, data),
                Some(defence_of(target@, target_upgrades@, data)),
                upgrades@,
                data,
            ),
    {
        self.calculate_weapon_stats(CalcTarget::Unit(target), upgrades, target_upgrades, data)
    }
}

} // verus!
