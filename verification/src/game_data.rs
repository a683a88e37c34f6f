//! The game's rules as far as this library reads them: what is constant for
//! each type of unit, each ability and each upgrade.
use vstd::prelude::*;
use crate::game_state::Race;
use crate::ids::{AbilityId, BuffId, UnitTypeId, UpgradeId};

verus! {

/// Property of a unit type that weapons and abilities tell apart.
#[derive(Debug, Clone, Copy, PartialEq, Eq, Structural, Hash)]
#[allow(missing_docs)]
pub enum Attribute {
    Light,
    Armored,
    Biological,
    Mechanical,
    Robotic,
    Psionic,
    Massive,
    Structure,
    Hover,
    Heroic,
    Summoned,
}

/// What a weapon can be fired at.
#[derive(Debug, Clone, Copy, PartialEq, Eq, Structural, Hash)]
pub enum TargetType {
    /// Targets on the ground.
    Ground,
    /// Targets in the air.
    Air,
    /// Targets on the ground and in the air.
    Any,
}

impl TargetType {
    /// Checks if only targets on the ground can be hit.
    pub fn is_ground(self) -> (r: bool)
        ensures
            r == (self == TargetType::Ground),
    {
        matches!(self, TargetType::Ground)
    }

    /// Checks if only targets in the air can be hit.
    pub fn is_air(self) -> (r: bool)
        ensures
            r == (self == TargetType::Air),
    {
        matches!(self, TargetType::Air)
    }

    /// Checks if every target can be hit.
    pub fn is_any(self) -> (r: bool)
        ensures
            r == (self == TargetType::Any),
    {
        matches!(self, TargetType::Any)
    }
}

/// Weapon of a unit type.
#[derive(Debug, Clone)]
pub struct Weapon {
    /// What the weapon can be fired at.
    pub target: TargetType,
    /// Damage of one attack.
    pub damage: u32,
    /// Additional damage against targets with an attribute.
    pub damage_bonus: Vec<(Attribute, u32)>,
    /// Number of attacks in one volley.
    pub attacks: u32,
    /// Range, in 4096ths.
    pub range: i32,
    /// Time between two volleys, in 4096ths of a second.
    pub speed: i32,
}

/// Price of a unit or an upgrade.
#[derive(Debug, Default, Clone, Copy, PartialEq, Eq, Structural)]
pub struct Cost {
    /// Minerals.
    pub minerals: u32,
    /// Vespene gas.
    pub vespene: u32,
    /// Supply, in 4096ths.
    pub supply: i32,
    /// Time to make, in 4096ths of a second.
    pub time: i32,
}

/// What is constant for every unit of one type.
#[derive(Debug, Clone)]
pub struct UnitTypeData {
    /// The type described.
    pub id: UnitTypeId,
    /// Name of the type.
    pub name: String,
    /// Minerals to pay.
    pub mineral_cost: u32,
    /// Vespene gas to pay.
    pub vespene_cost: u32,
    /// Supply taken, in 4096ths.
    pub food_required: i32,
    /// Supply given, in 4096ths.
    pub food_provided: i32,
    /// Ability that makes a unit of this type, if any.
    pub ability: Option<AbilityId>,
    /// Race of the type.
    pub race: Race,
    /// Time to make, in 4096ths of a second.
    pub build_time: i32,
    /// Whether units of this type hold vespene gas.
    pub has_vespene: bool,
    /// Whether units of this type hold minerals.
    pub has_minerals: bool,
    /// How far units of this type see, in 4096ths.
    pub sight_range: i32,
    /// Space taken in a transport.
    pub cargo_size: u32,
    /// Speed on plain ground, in 4096ths per second.
    pub movement_speed: i32,
    /// Armor without upgrades.
    pub armor: i32,
    /// Attributes of the type.
    pub attributes: Vec<Attribute>,
    /// Weapons of the type.
    pub weapons: Vec<Weapon>,
}

impl UnitTypeData {
    /// Price of one unit of the type.
    pub fn cost(&self) -> (c: Cost)
        ensures
            c == (Cost {
                minerals: self.mineral_cost,
                vespene: self.vespene_cost,
                supply: self.food_required,
                time: self.build_time,
            }),
    {
        Cost {
            minerals: self.mineral_cost,
            vespene: self.vespene_cost,
            supply: self.food_required,
            time: self.build_time,
        }
    }
}

/// What is constant for an ability.
#[derive(Debug, Clone, Copy, PartialEq, Eq, Structural)]
pub struct AbilityData {
    /// The ability described.
    pub id: AbilityId,
    /// Whether the ability places a building.
    pub is_building: bool,
    /// Half the width of the building that the ability places, in 4096ths.
    pub footprint_radius: Option<i32>,
    /// From how far the ability can be cast, in 4096ths.
    pub cast_range: Option<i32>,
}

/// What is constant for an upgrade.
#[derive(Debug, Clone, Copy, PartialEq, Eq, Structural)]
pub struct UpgradeData {
    /// The upgrade described.
    pub id: UpgradeId,
    /// Ability that researches the upgrade.
    pub ability: AbilityId,
    /// Minerals to pay.
    pub mineral_cost: u32,
    /// Vespene gas to pay.
    pub vespene_cost: u32,
    /// Time to research, in 4096ths of a second.
    pub research_time: i32,
}

impl UpgradeData {
    /// Price of the upgrade.
    pub fn cost(&self) -> (c: Cost)
        ensures
            c == (Cost {
                minerals: self.mineral_cost,
                vespene: self.vespene_cost,
                supply: 0,
                time: self.research_time,
            }),
    {
        Cost {
            minerals: self.mineral_cost,
            vespene: self.vespene_cost,
            supply: 0,
            time: self.research_time,
        }
    }
}

/// Number by which a speed is multiplied: `num` over `den`.
#[derive(Debug, Clone, Copy, PartialEq, Eq, Structural)]
pub struct Ratio {
    /// What the speed is multiplied by.
    pub num: u32,
    /// What the product is divided by.
    pub den: u32,
}

/// What an upgrade does to the speed of a type of unit.
#[derive(Debug, Clone, Copy, PartialEq, Eq, Structural)]
pub struct SpeedUpgrade {
    /// The type of unit.
    pub unit: UnitTypeId,
    /// The upgrade.
    pub upgrade: UpgradeId,
    /// By how much the speed is multiplied.
    pub increase: Ratio,
}

/// What each level of the attack upgrade adds to the damage of the weapon
/// that a type of unit has against a kind of target.
#[derive(Debug, Clone)]
pub struct UpgradeBonus {
    /// The type of unit.
    pub unit: UnitTypeId,
    /// What the weapon is fired at.
    pub target: TargetType,
    /// What a level adds to the damage; one where nothing is said.
    pub damage: Option<u32>,
    /// What a level adds to the additional damage against an attribute.
    pub bonus: Vec<(Attribute, u32)>,
}

/// Whether a list of unit types holds `id`.
pub open spec fn has_type(types: Seq<UnitTypeId>, id: UnitTypeId) -> bool {
    exists|i: int| 0 <= i < types.len() && types[i] == id
}

/// Checks if a list of unit types holds `id`.
pub fn contains_type(types: &Vec<UnitTypeId>, id: UnitTypeId) -> (r: bool)
    ensures
        r == has_type(types@, id),
{
    let mut i: usize = 0;
    while i < types.len()
        invariant
            i <= types.len(),
            forall|j: int| 0 <= j < i ==> types[j] != id,
        decreases types.len() - i,
    {
        if types[i] == id {
            return true;
        }
        i += 1;
    }
    false
}

/// The other form of the type `t`: what the first entry of the list for
/// `t` gives.
pub open spec fn alias_of(list: Seq<(UnitTypeId, UnitTypeId)>, t: UnitTypeId) -> Option<UnitTypeId>
    decreases list.len(),
{
    if list.len() == 0 {
        None
    } else if list[0].0 == t {
        Some(list[0].1)
    } else {
        alias_of(list.skip(1), t)
    }
}

/// Looks up the other form of the type `t`.
pub fn find_alias(list: &Vec<(UnitTypeId, UnitTypeId)>, t: UnitTypeId) -> (r: Option<UnitTypeId>)
    ensures
        r == alias_of(list@, t),
{
    let mut i: usize = 0;
    assert(list@.skip(0) =~= list@);
    while i < list.len()
        invariant
            i <= list.len(),
            alias_of(list@, t) == alias_of(list@.skip(i as int), t),
        decreases list.len() - i,
    {
        assert(list@.skip(i as int)[0] == list@[i as int]);
        assert(list@.skip(i as int).skip(1) =~= list@.skip(i + 1));
        if list[i].0 == t {
            return Some(list[i].1);
        }
        i += 1;
    }
    None
}

/// The types that stand for the same step of the tech tree as `t`: what the
/// first entry of the list for `t` gives.
pub open spec fn tech_alias_of(list: Seq<(UnitTypeId, Vec<UnitTypeId>)>, t: UnitTypeId) -> Option<
    Seq<UnitTypeId>,
>
    decreases list.len(),
{
    if list.len() == 0 {
        None
    } else if list[0].0 == t {
        Some(list[0].1@)
    } else {
        tech_alias_of(list.skip(1), t)
    }
}

/// Looks up the types that stand for the same step of the tech tree as `t`.
pub fn find_tech_alias(list: &Vec<(UnitTypeId, Vec<UnitTypeId>)>, t: UnitTypeId) -> (r: Option<
    &Vec<UnitTypeId>,
>)
    ensures
        match r {
            Some(v) => tech_alias_of(list@, t) == Some(v@),
            None => tech_alias_of(list@, t).is_none(),
        },
{
    let mut i: usize = 0;
    assert(list@.skip(0) =~= list@);
    while i < list.len()
        invariant
            i <= list.len(),
            tech_alias_of(list@, t) == tech_alias_of(list@.skip(i as int), t),
        decreases list.len() - i,
    {
        assert(list@.skip(i as int)[0] == list@[i as int]);
        assert(list@.skip(i as int).skip(1) =~= list@.skip(i + 1));
        if list[i].0 == t {
            return Some(&list[i].1);
        }
        i += 1;
    }
    None
}

/// The game's rules: one entry for each unit type, ability and upgrade that
/// the game describes. Where a table names something twice, the first entry
/// counts.
#[derive(Debug, Clone)]
pub struct GameData {
    /// Unit types.
    pub units: Vec<UnitTypeData>,
    /// Abilities.
    pub abilities: Vec<AbilityData>,
    /// Upgrades.
    pub upgrades: Vec<UpgradeData>,
    /// Weapons of the types of unit for which the game tells none, or not
    /// the right ones.
    pub missed_weapons: Vec<(UnitTypeId, Vec<Weapon>)>,
    /// What each level of the attack upgrade adds to the damage of a weapon.
    pub damage_bonus_per_upgrade: Vec<UpgradeBonus>,
    /// By how much each buff multiplies the speed of a unit.
    pub speed_buffs: Vec<(BuffId, Ratio)>,
    /// What upgrades do to the speed of units.
    pub speed_upgrades: Vec<SpeedUpgrade>,
    /// What upgrades do to the speed of units off creep.
    pub off_creep_speed_upgrades: Vec<SpeedUpgrade>,
    /// What upgrades do to the speed of units on creep.
    pub on_creep_speed_upgrades: Vec<SpeedUpgrade>,
    /// By how much creep multiplies the speed of each type of unit.
    pub speed_on_creep: Vec<(UnitTypeId, Ratio)>,
    /// For each type of unit that has two forms, the other form.
    pub unit_alias: Vec<(UnitTypeId, UnitTypeId)>,
    /// For each type of unit, the types that stand for the same step of the
    /// tech tree.
    pub tech_alias: Vec<(UnitTypeId, Vec<UnitTypeId>)>,
    /// Types of the zones that slow units down.
    pub inhibitor_ids: Vec<UnitTypeId>,
    /// For each type of unit that can burrow, the type it has when burrowed.
    pub burrowed_ids: Vec<(UnitTypeId, UnitTypeId)>,
    /// The types of unit that fight hand to hand.
    pub melee_ids: Vec<UnitTypeId>,
}

impl Weapon {
    /// Weapon with one attack and no additional damage.
    pub fn new(target: TargetType, damage: u32, range: i32, speed: i32) -> (w: Weapon)
        ensures
            w.target == target,
            w.damage == damage,
            w.damage_bonus@.len() == 0,
            w.attacks == 1,
            w.range == range,
            w.speed == speed,
    {
        Weapon { target, damage, damage_bonus: Vec::new(), attacks: 1, range, speed }
    }
}

impl UnitTypeData {
    /// What is constant for a type of which nothing is known but its race:
    /// it costs nothing, has no name, no attributes and no weapons.
    pub fn new(id: UnitTypeId, race: Race) -> (d: UnitTypeData)
        ensures
            d.id == id,
            d.race == race,
            d.name@.len() == 0,
            d.mineral_cost == 0,
            d.vespene_cost == 0,
            d.food_required == 0,
            d.food_provided == 0,
            d.ability.is_none(),
            d.build_time == 0,
            !d.has_vespene,
            !d.has_minerals,
            d.sight_range == 0,
            d.cargo_size == 0,
            d.movement_speed == 0,
            d.armor == 0,
            d.attributes@.len() == 0,
            d.weapons@.len() == 0,
    {
        UnitTypeData {
            id,
            name: String::new(),
            mineral_cost: 0,
            vespene_cost: 0,
            food_required: 0,
            food_provided: 0,
            ability: None,
            race,
            build_time: 0,
            has_vespene: false,
            has_minerals: false,
            sight_range: 0,
            cargo_size: 0,
            movement_speed: 0,
            armor: 0,
            attributes: Vec::new(),
            weapons: Vec::new(),
        }
    }
}

impl GameData {
    /// Rules that know nothing.
    pub fn new() -> (d: GameData)
        ensures
            d.units@.len() == 0,
            d.abilities@.len() == 0,
            d.upgrades@.len() == 0,
            d.missed_weapons@.len() == 0,
            d.damage_bonus_per_upgrade@.len() == 0,
            d.speed_buffs@.len() == 0,
            d.speed_upgrades@.len() == 0,
            d.off_creep_speed_upgrades@.len() == 0,
            d.on_creep_speed_upgrades@.len() == 0,
            d.speed_on_creep@.len() == 0,
            d.unit_alias@.len() == 0,
            d.tech_alias@.len() == 0,
            d.inhibitor_ids@.len() == 0,
            d.burrowed_ids@.len() == 0,
            d.melee_ids@.len() == 0,
    {
        GameData {
            units: Vec::new(),
            abilities: Vec::new(),
            upgrades: Vec::new(),
            missed_weapons: Vec::new(),
            damage_bonus_per_upgrade: Vec::new(),
            speed_buffs: Vec::new(),
            speed_upgrades: Vec::new(),
            off_creep_speed_upgrades: Vec::new(),
            on_creep_speed_upgrades: Vec::new(),
            speed_on_creep: Vec::new(),
            unit_alias: Vec::new(),
            tech_alias: Vec::new(),
            inhibitor_ids: Vec::new(),
            burrowed_ids: Vec::new(),
            melee_ids: Vec::new(),
        }
    }

    /// Whether entry `i` is the first entry for the unit type `id`.
    pub open spec fn first_unit(&self, id: UnitTypeId, i: int) -> bool {
        &&& 0 <= i < self.units.len()
        &&& self.units[i].id == id
        &&& forall|j: int| 0 <= j < i ==> (#[trigger] self.units[j]).id != id
    }

    /// Whether entry `i` is the first entry for the ability `id`.
    pub open spec fn first_ability(&self, id: AbilityId, i: int) -> bool {
        &&& 0 <= i < self.abilities.len()
        &&& self.abilities[i].id == id
        &&& forall|j: int| 0 <= j < i ==> (#[trigger] self.abilities[j]).id != id
    }

    /// Whether entry `i` is the first entry for the upgrade `id`.
    pub open spec fn first_upgrade(&self, id: UpgradeId, i: int) -> bool {
        &&& 0 <= i < self.upgrades.len()
        &&& self.upgrades[i].id == id
        &&& forall|j: int| 0 <= j < i ==> (#[trigger] self.upgrades[j]).id != id
    }

    /// The entry for the unit type `id`; `None` where the table has none.
    pub open spec fn spec_unit(&self, id: UnitTypeId) -> Option<UnitTypeData> {
        if exists|i: int| self.first_unit(id, i) {
            Some(self.units[choose|i: int| self.first_unit(id, i)])
        } else {
            None
        }
    }

    /// The entry for the ability `id`; `None` where the table has none.
    pub open spec fn spec_ability(&self, id: AbilityId) -> Option<AbilityData> {
        if exists|i: int| self.first_ability(id, i) {
            Some(self.abilities[choose|i: int| self.first_ability(id, i)])
        } else {
            None
        }
    }

    /// The entry for the upgrade `id`; `None` where the table has none.
    pub open spec fn spec_upgrade(&self, id: UpgradeId) -> Option<UpgradeData> {
        if exists|i: int| self.first_upgrade(id, i) {
            Some(self.upgrades[choose|i: int| self.first_upgrade(id, i)])
        } else {
            None
        }
    }

    /// Looks up the entry for the unit type `id`.
    pub fn unit(&self, id: UnitTypeId) -> (r: Option<&UnitTypeData>)
        ensures
            match r {
                Some(d) => self.spec_unit(id) == Some(*d) && d.id == id,
                None => self.spec_unit(id).is_none(),
            },
    {
        let mut i: usize = 0;
        while i < self.units.len()
            invariant
                i <= self.units.len(),
                forall|j: int| 0 <= j < i ==> (#[trigger] self.units[j]).id != id,
            decreases self.units.len() - i,
        {
            if self.units[i].id == id {
                proof {
                    assert(self.first_unit(id, i as int));
                    let c = choose|c: int| self.first_unit(id, c);
                    if c < i {
                        assert(self.units[c].id != id);
                    } else if i < c {
                        assert(self.units[i as int].id != id);
                    }
                }
                return Some(&self.units[i]);
            }
            i += 1;
        }
        proof {
            if exists|c: int| self.first_unit(id, c) {
                let c = choose|c: int| self.first_unit(id, c);
                assert(self.units[c].id != id);
            }
        }
        None
    }

    /// Looks up the entry for the ability `id`.
    pub fn ability(&self, id: AbilityId) -> (r: Option<AbilityData>)
        ensures
            r == self.spec_ability(id),
            r.is_some() ==> r.unwrap().id == id,
    {
        let mut i: usize = 0;
        while i < self.abilities.len()
            invariant
                i <= self.abilities.len(),
                forall|j: int| 0 <= j < i ==> (#[trigger] self.abilities[j]).id != id,
            decreases self.abilities.len() - i,
        {
            if self.abilities[i].id == id {
                proof {
                    assert(self.first_ability(id, i as int));
                    let c = choose|c: int| self.first_ability(id, c);
                    if c < i {
                        assert(self.abilities[c].id != id);
                    } else if i < c {
                        assert(self.abilities[i as int].id != id);
                    }
                }
                return Some(self.abilities[i]);
            }
            i += 1;
        }
        proof {
            if exists|c: int| self.first_ability(id, c) {
                let c = choose|c: int| self.first_ability(id, c);
                assert(self.abilities[c].id != id);
            }
        }
        None
    }

    /// Looks up the entry for the upgrade `id`.
    pub fn upgrade(&self, id: UpgradeId) -> (r: Option<UpgradeData>)
        ensures
            r == self.spec_upgrade(id),
            r.is_some() ==> r.unwrap().id == id,
    {
        let mut i: usize = 0;
        while i < self.upgrades.len()
            invariant
                i <= self.upgrades.len(),
                forall|j: int| 0 <= j < i ==> (#[trigger] self.upgrades[j]).id != id,
            decreases self.upgrades.len() - i,
        {
            if self.upgrades[i].id == id {
                proof {
                    assert(self.first_upgrade(id, i as int));
                    let c = choose|c: int| self.first_upgrade(id, c);
                    if c < i {
                        assert(self.upgrades[c].id != id);
                    } else if i < c {
                        assert(self.upgrades[i as int].id != id);
                    }
                }
                return Some(self.upgrades[i]);
            }
            i += 1;
        }
        proof {
            if exists|c: int| self.first_upgrade(id, c) {
                let c = choose|c: int| self.first_upgrade(id, c);
                assert(self.upgrades[c].id != id);
            }
        }
        None
    }
}

} // verus!
