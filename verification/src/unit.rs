//! One unit as one observation shows it, and what follows from that alone.
use vstd::prelude::*;
use crate::action::{Point3, Target};
use crate::game_data::{contains_type, has_type, Attribute, GameData};
use crate::game_state::{Alliance, Race};
use crate::geometry::{Grid, Point2, SCALE, Visibility};
use crate::ids::{AbilityId, BuffId, UnitTypeId};

verus! {

/// How fresh the data on a unit is.
#[derive(Debug, Clone, Copy, PartialEq, Eq, Structural, Hash)]
pub enum DisplayType {
    /// Seen now.
    Visible,
    /// Remembered from when it was last seen.
    Snapshot,
    /// Not seen.
    Hidden,
    /// Building whose construction was ordered and has not begun.
    Placeholder,
}

impl DisplayType {
    /// Checks if the unit is seen now.
    pub fn is_visible(self) -> (r: bool)
        ensures
            r == (self == DisplayType::Visible),
    {
        matches!(self, DisplayType::Visible)
    }

    /// Checks if the unit is remembered, not seen.
    pub fn is_snapshot(self) -> (r: bool)
        ensures
            r == (self == DisplayType::Snapshot),
    {
        matches!(self, DisplayType::Snapshot)
    }

    /// Checks if the unit is not seen.
    pub fn is_hidden(self) -> (r: bool)
        ensures
            r == (self == DisplayType::Hidden),
    {
        matches!(self, DisplayType::Hidden)
    }

    /// Checks if the unit is a building that has not begun.
    pub fn is_placeholder(self) -> (r: bool)
        ensures
            r == (self == DisplayType::Placeholder),
    {
        matches!(self, DisplayType::Placeholder)
    }
}

/// Order given to a unit.
#[derive(Debug, Clone, Copy, PartialEq, Eq, Structural)]
pub struct UnitOrder {
    /// Ability the unit uses.
    pub ability: AbilityId,
    /// Target of the ability.
    pub target: Target,
    /// Progress of training or research, from `0` to `SCALE`.
    pub progress: i32,
}

/// Unit inside a transport or a bunker. Its numbers are in 4096ths.
#[derive(Debug, Clone, Copy, PartialEq, Eq, Structural)]
#[allow(missing_docs)]
pub struct PassengerUnit {
    pub tag: u64,
    pub health: i32,
    pub health_max: i32,
    pub shield: i32,
    pub shield_max: i32,
    pub energy: i32,
    pub energy_max: i32,
    pub type_id: UnitTypeId,
}

/// Rally point of a production building.
#[derive(Debug, Clone, Copy, PartialEq, Eq, Structural)]
pub struct RallyTarget {
    /// Position the building rallies to.
    pub point: Point2,
    /// Tag of the unit the building rallies to, if it rallies to a unit.
    pub tag: Option<u64>,
}

/// What the game reports of a unit's cloak.
#[derive(Debug, Clone, Copy, PartialEq, Eq, Structural)]
pub enum CloakState {
    /// Nothing is known.
    CloakedUnknown,
    /// Cloaked and not detected.
    Cloaked,
    /// Cloaked and detected.
    CloakedDetected,
    /// Not cloaked.
    NotCloaked,
    /// Cloaked, and an ally's.
    CloakedAllied,
}

/// Order of a unit as the game reports it. The ability is `None` where the
/// game names one that is not known.
#[derive(Debug, Clone, Copy, PartialEq, Eq, Structural)]
#[allow(missing_docs)]
pub struct RawOrder {
    pub ability: Option<AbilityId>,
    pub target: Target,
    pub progress: i32,
}

/// Passenger as the game reports it. The type is `None` where the game names
/// one that is not known.
#[derive(Debug, Clone, Copy, PartialEq, Eq, Structural)]
#[allow(missing_docs)]
pub struct RawPassenger {
    pub tag: u64,
    pub health: i32,
    pub health_max: i32,
    pub shield: i32,
    pub shield_max: i32,
    pub energy: i32,
    pub energy_max: i32,
    pub unit_type: Option<UnitTypeId>,
}

/// Unit as the game reports it, before anything is corrected. Numbers that
/// the game reports with a fraction are in 4096ths; the unit's type is `None`
/// where the game names one that is not known.
#[derive(Debug)]
#[allow(missing_docs)]
pub struct RawUnit {
    pub display_type: DisplayType,
    pub alliance: Alliance,
    pub tag: u64,
    pub unit_type: Option<UnitTypeId>,
    pub owner: u32,
    pub pos: Point3,
    pub facing: i32,
    pub radius: i32,
    pub build_progress: i32,
    pub cloak: CloakState,
    pub buff_ids: Vec<u32>,
    pub detect_range: i32,
    pub radar_range: i32,
    pub is_selected: bool,
    pub is_on_screen: bool,
    pub is_blip: bool,
    pub is_powered: bool,
    pub is_active: bool,
    pub attack_upgrade_level: u32,
    pub armor_upgrade_level: i32,
    pub shield_upgrade_level: i32,
    pub health: Option<u32>,
    pub health_max: Option<u32>,
    pub shield: Option<u32>,
    pub shield_max: Option<u32>,
    pub energy: Option<u32>,
    pub energy_max: Option<u32>,
    pub mineral_contents: Option<u32>,
    pub vespene_contents: Option<u32>,
    pub is_flying: bool,
    pub is_burrowed: bool,
    pub is_hallucination: bool,
    pub orders: Vec<RawOrder>,
    pub add_on_tag: Option<u64>,
    pub passengers: Vec<RawPassenger>,
    pub cargo_space_taken: Option<u32>,
    pub cargo_space_max: Option<u32>,
    pub assigned_harvesters: Option<u32>,
    pub ideal_harvesters: Option<u32>,
    pub weapon_cooldown: Option<i32>,
    pub engaged_target_tag: Option<u64>,
    pub buff_duration_remain: Option<u32>,
    pub buff_duration_max: Option<u32>,
    pub rally_targets: Vec<RallyTarget>,
}

/// Why a report of the game cannot be taken in.
#[derive(Debug, Clone, Copy, PartialEq, Eq, Structural)]
pub enum SnapshotError {
    /// The unit with this tag, or one of its passengers, has a type that is
    /// not known.
    UnknownUnitType(u64),
}

/// Range at which an observer detects, whatever the game reports.
pub const OBSERVER_DETECT_RANGE: i32 = 45056;

/// Range at which an observer in surveillance mode detects, whatever the game
/// reports.
pub const OBSERVER_SIEGED_DETECT_RANGE: i32 = 56320;

/// Copy of a vector of plain values.
pub fn copy_of<T: Copy>(v: &Vec<T>) -> (r: Vec<T>)
    ensures
        r@ == v@,
{
    let mut r: Vec<T> = Vec::new();
    let mut i: usize = 0;
    while i < v.len()
        invariant
            i <= v.len(),
            r@ == v@.take(i as int),
        decreases v.len() - i,
    {
        r.push(v[i]);
        assert(v@.take(i + 1) =~= v@.take(i as int).push(v@[i as int]));
        i += 1;
    }
    assert(v@.take(v.len() as int) =~= v@);
    r
}

/// The buffs that the numbers in `ids` name, in their order; numbers that
/// name no buff are left out.
pub open spec fn known_buffs(ids: Seq<u32>) -> Seq<BuffId>
    decreases ids.len(),
{
    if ids.len() == 0 {
        Seq::empty()
    } else {
        match BuffId::spec_from_u32(ids.last()) {
            Some(b) => known_buffs(ids.drop_last()).push(b),
            None => known_buffs(ids.drop_last()),
        }
    }
}

/// The orders in `raw` whose ability is known, in their order.
pub open spec fn known_orders(raw: Seq<RawOrder>) -> Seq<UnitOrder>
    decreases raw.len(),
{
    if raw.len() == 0 {
        Seq::empty()
    } else {
        match raw.last().ability {
            Some(ability) => known_orders(raw.drop_last()).push(
                UnitOrder { ability, target: raw.last().target, progress: raw.last().progress },
            ),
            None => known_orders(raw.drop_last()),
        }
    }
}

/// Whether the type of every passenger in `raw` is known.
pub open spec fn passengers_known(raw: Seq<RawPassenger>) -> bool {
    forall|i: int| 0 <= i < raw.len() ==> (#[trigger] raw[i]).unit_type.is_some()
}

/// The passenger that a report with a known type stands for.
pub open spec fn passenger_of(p: RawPassenger) -> PassengerUnit {
    PassengerUnit {
        tag: p.tag,
        health: p.health,
        health_max: p.health_max,
        shield: p.shield,
        shield_max: p.shield_max,
        energy: p.energy,
        energy_max: p.energy_max,
        type_id: p.unit_type.unwrap(),
    }
}

/// Whether the cell that holds `position` is seen now.
pub open spec fn cell_visible(visibility: &Grid<Visibility>, position: Point2) -> bool {
    visibility.at(
        crate::geometry::cell_of(position.x as int),
        crate::geometry::cell_of(position.y as int),
    ) == Some(Visibility::Visible)
}

/// What a report is taken in as. A burrowed unit counts as cloaked and not
/// detected whatever the report says of its cloak; a unit reported as seen on
/// a cell that is not seen now is a snapshot; observers detect at their known
/// ranges; buffs and orders that are not known are left out.
pub open spec fn spec_from_raw(raw: RawUnit, visibility: &Grid<Visibility>) -> UnitView {
    let position = Point2 { x: raw.pos.x, y: raw.pos.y };
    UnitView {
        display_type: if raw.display_type == DisplayType::Visible && !cell_visible(
            visibility,
            position,
        ) {
            DisplayType::Snapshot
        } else {
            raw.display_type
        },
        alliance: raw.alliance,
        tag: raw.tag,
        type_id: raw.unit_type.unwrap(),
        owner: raw.owner,
        position,
        position3d: raw.pos,
        facing: raw.facing,
        radius: raw.radius,
        build_progress: raw.build_progress,
        is_cloaked: raw.is_burrowed || raw.cloak == CloakState::Cloaked || raw.cloak
            == CloakState::CloakedAllied || raw.cloak == CloakState::CloakedDetected,
        is_revealed: !raw.is_burrowed && raw.cloak == CloakState::CloakedDetected,
        buffs: known_buffs(raw.buff_ids@),
        detect_range: if raw.unit_type == Some(UnitTypeId::Observer) {
            OBSERVER_DETECT_RANGE
        } else if raw.unit_type == Some(UnitTypeId::ObserverSiegeMode) {
            OBSERVER_SIEGED_DETECT_RANGE
        } else {
            raw.detect_range
        },
        radar_range: raw.radar_range,
        is_selected: raw.is_selected,
        is_on_screen: raw.is_on_screen,
        is_blip: raw.is_blip,
        is_powered: raw.is_powered,
        is_active: raw.is_active,
        attack_upgrade_level: raw.attack_upgrade_level,
        armor_upgrade_level: raw.armor_upgrade_level,
        shield_upgrade_level: raw.shield_upgrade_level,
        health: raw.health,
        health_max: raw.health_max,
        shield: raw.shield,
        shield_max: raw.shield_max,
        energy: raw.energy,
        energy_max: raw.energy_max,
        mineral_contents: raw.mineral_contents,
        vespene_contents: raw.vespene_contents,
        is_flying: raw.is_flying,
        is_burrowed: raw.is_burrowed,
        is_hallucination: raw.is_hallucination,
        orders: known_orders(raw.orders@),
        addon_tag: raw.add_on_tag,
        passengers: raw.passengers@.map_values(|p: RawPassenger| passenger_of(p)),
        cargo_space_taken: raw.cargo_space_taken,
        cargo_space_max: raw.cargo_space_max,
        assigned_harvesters: raw.assigned_harvesters,
        ideal_harvesters: raw.ideal_harvesters,
        weapon_cooldown: raw.weapon_cooldown,
        engaged_target_tag: raw.engaged_target_tag,
        buff_duration_remain: raw.buff_duration_remain,
        buff_duration_max: raw.buff_duration_max,
        rally_targets: raw.rally_targets@,
    }
}

/// Snapshot of one unit, structure or resource at one observation.
#[derive(Debug)]
pub struct Unit {
    /// How fresh the data on the unit is.
    pub display_type: DisplayType,
    /// Whose unit it is.
    pub alliance: Alliance,
    /// Tag of the unit: unique, and the same as long as the unit lives.
    pub tag: u64,
    /// Type of the unit.
    pub type_id: UnitTypeId,
    /// Player id of the owner.
    pub owner: u32,
    /// Position on the map.
    pub position: Point2,
    /// Position in the game's space.
    pub position3d: Point3,
    /// Direction the unit faces, in 4096ths of a radian.
    pub facing: i32,
    /// Radius of the unit, in 4096ths.
    pub radius: i32,
    /// Progress of construction, from `0` to `SCALE`.
    pub build_progress: i32,
    /// Whether the unit is burrowed or cloaked.
    pub is_cloaked: bool,
    /// Whether the unit is cloaked and detected.
    pub is_revealed: bool,
    /// Buffs the unit has.
    pub buffs: Vec<BuffId>,
    /// Range of detection, `0` for a unit that detects nothing; in 4096ths.
    pub detect_range: i32,
    /// Range of a sensor tower, in 4096ths.
    pub radar_range: i32,
    /// Whether the unit is selected.
    pub is_selected: bool,
    /// Whether the unit is shown in the game's window.
    pub is_on_screen: bool,
    /// Whether the unit is known from a sensor tower only.
    pub is_blip: bool,
    /// Whether a protoss structure has power.
    pub is_powered: bool,
    /// Whether a building trains or researches.
    pub is_active: bool,
    /// Level of the general attack upgrade.
    pub attack_upgrade_level: u32,
    /// Level of the general armor upgrade.
    pub armor_upgrade_level: i32,
    /// Level of the general shield upgrade.
    pub shield_upgrade_level: i32,
    /// Health; unknown for a snapshot.
    pub health: Option<u32>,
    /// Greatest health; unknown for a snapshot.
    pub health_max: Option<u32>,
    /// Shield; unknown for a snapshot.
    pub shield: Option<u32>,
    /// Greatest shield; unknown for a snapshot.
    pub shield_max: Option<u32>,
    /// Energy; unknown for a snapshot.
    pub energy: Option<u32>,
    /// Greatest energy; unknown for a snapshot.
    pub energy_max: Option<u32>,
    /// Minerals left in a mineral field; unknown for a snapshot.
    pub mineral_contents: Option<u32>,
    /// Gas left in a geyser; unknown for a snapshot.
    pub vespene_contents: Option<u32>,
    /// Whether the unit flies.
    pub is_flying: bool,
    /// Whether the unit is burrowed.
    pub is_burrowed: bool,
    /// Whether the unit is a hallucination.
    pub is_hallucination: bool,
    /// Orders of the unit, the current one first; empty for an enemy.
    pub orders: Vec<UnitOrder>,
    /// Tag of the add-on, if the building has one.
    pub addon_tag: Option<u64>,
    /// Units inside a transport or a bunker.
    pub passengers: Vec<PassengerUnit>,
    /// Space used in a transport or a bunker.
    pub cargo_space_taken: Option<u32>,
    /// Space of a transport or a bunker.
    pub cargo_space_max: Option<u32>,
    /// Workers on a gas building or a base.
    pub assigned_harvesters: Option<u32>,
    /// Workers that a gas building or a base can use.
    pub ideal_harvesters: Option<u32>,
    /// Frames until the weapon can fire again, in 4096ths.
    pub weapon_cooldown: Option<i32>,
    /// Tag of the unit that is being attacked.
    pub engaged_target_tag: Option<u64>,
    /// How long a buff or a timed unit still lasts.
    pub buff_duration_remain: Option<u32>,
    /// How long a buff or a timed unit lasts at most.
    pub buff_duration_max: Option<u32>,
    /// Rally points of a structure.
    pub rally_targets: Vec<RallyTarget>,
}

/// What a [`Unit`] holds, with sequences in place of vectors.
#[allow(missing_docs)]
pub struct UnitView {
    pub display_type: DisplayType,
    pub alliance: Alliance,
    pub tag: u64,
    pub type_id: UnitTypeId,
    pub owner: u32,
    pub position: Point2,
    pub position3d: Point3,
    pub facing: i32,
    pub radius: i32,
    pub build_progress: i32,
    pub is_cloaked: bool,
    pub is_revealed: bool,
    pub buffs: Seq<BuffId>,
    pub detect_range: i32,
    pub radar_range: i32,
    pub is_selected: bool,
    pub is_on_screen: bool,
    pub is_blip: bool,
    pub is_powered: bool,
    pub is_active: bool,
    pub attack_upgrade_level: u32,
    pub armor_upgrade_level: i32,
    pub shield_upgrade_level: i32,
    pub health: Option<u32>,
    pub health_max: Option<u32>,
    pub shield: Option<u32>,
    pub shield_max: Option<u32>,
    pub energy: Option<u32>,
    pub energy_max: Option<u32>,
    pub mineral_contents: Option<u32>,
    pub vespene_contents: Option<u32>,
    pub is_flying: bool,
    pub is_burrowed: bool,
    pub is_hallucination: bool,
    pub orders: Seq<UnitOrder>,
    pub addon_tag: Option<u64>,
    pub passengers: Seq<PassengerUnit>,
    pub cargo_space_taken: Option<u32>,
    pub cargo_space_max: Option<u32>,
    pub assigned_harvesters: Option<u32>,
    pub ideal_harvesters: Option<u32>,
    pub weapon_cooldown: Option<i32>,
    pub engaged_target_tag: Option<u64>,
    pub buff_duration_remain: Option<u32>,
    pub buff_duration_max: Option<u32>,
    pub rally_targets: Seq<RallyTarget>,
}

impl View for Unit {
    type V = UnitView;

    open spec fn view(&self) -> UnitView {
        UnitView {
            display_type: self.display_type,
            alliance: self.alliance,
            tag: self.tag,
            type_id: self.type_id,
            owner: self.owner,
            position: self.position,
            position3d: self.position3d,
            facing: self.facing,
            radius: self.radius,
            build_progress: self.build_progress,
            is_cloaked: self.is_cloaked,
            is_revealed: self.is_revealed,
            buffs: self.buffs@,
            detect_range: self.detect_range,
            radar_range: self.radar_range,
            is_selected: self.is_selected,
            is_on_screen: self.is_on_screen,
            is_blip: self.is_blip,
            is_powered: self.is_powered,
            is_active: self.is_active,
            attack_upgrade_level: self.attack_upgrade_level,
            armor_upgrade_level: self.armor_upgrade_level,
            shield_upgrade_level: self.shield_upgrade_level,
            health: self.health,
            health_max: self.health_max,
            shield: self.shield,
            shield_max: self.shield_max,
            energy: self.energy,
            energy_max: self.energy_max,
            mineral_contents: self.mineral_contents,
            vespene_contents: self.vespene_contents,
            is_flying: self.is_flying,
            is_burrowed: self.is_burrowed,
            is_hallucination: self.is_hallucination,
            orders: self.orders@,
            addon_tag: self.addon_tag,
            passengers: self.passengers@,
            cargo_space_taken: self.cargo_space_taken,
            cargo_space_max: self.cargo_space_max,
            assigned_harvesters: self.assigned_harvesters,
            ideal_harvesters: self.ideal_harvesters,
            weapon_cooldown: self.weapon_cooldown,
            engaged_target_tag: self.engaged_target_tag,
            buff_duration_remain: self.buff_duration_remain,
            buff_duration_max: self.buff_duration_max,
            rally_targets: self.rally_targets@,
        }
    }
}

impl Clone for Unit {
    fn clone(&self) -> (r: Unit)
        ensures
            r@ == self@,
    {
        Unit {
            display_type: self.display_type,
            alliance: self.alliance,
            tag: self.tag,
            type_id: self.type_id,
            owner: self.owner,
            position: self.position,
            position3d: self.position3d,
            facing: self.facing,
            radius: self.radius,
            build_progress: self.build_progress,
            is_cloaked: self.is_cloaked,
            is_revealed: self.is_revealed,
            buffs: copy_of(&self.buffs),
            detect_range: self.detect_range,
            radar_range: self.radar_range,
            is_selected: self.is_selected,
            is_on_screen: self.is_on_screen,
            is_blip: self.is_blip,
            is_powered: self.is_powered,
            is_active: self.is_active,
            attack_upgrade_level: self.attack_upgrade_level,
            armor_upgrade_level: self.armor_upgrade_level,
            shield_upgrade_level: self.shield_upgrade_level,
            health: self.health,
            health_max: self.health_max,
            shield: self.shield,
            shield_max: self.shield_max,
            energy: self.energy,
            energy_max: self.energy_max,
            mineral_contents: self.mineral_contents,
            vespene_contents: self.vespene_contents,
            is_flying: self.is_flying,
            is_burrowed: self.is_burrowed,
            is_hallucination: self.is_hallucination,
            orders: copy_of(&self.orders),
            addon_tag: self.addon_tag,
            passengers: copy_of(&self.passengers),
            cargo_space_taken: self.cargo_space_taken,
            cargo_space_max: self.cargo_space_max,
            assigned_harvesters: self.assigned_harvesters,
            ideal_harvesters: self.ideal_harvesters,
            weapon_cooldown: self.weapon_cooldown,
            engaged_target_tag: self.engaged_target_tag,
            buff_duration_remain: self.buff_duration_remain,
            buff_duration_max: self.buff_duration_max,
            rally_targets: copy_of(&self.rally_targets),
        }
    }
}

impl Unit {
    /// How fresh the data on the unit is.
    pub fn display_type(&self) -> (r: DisplayType)
        ensures
            r == self@.display_type,
    {
        self.display_type
    }

    /// Whose unit it is.
    pub fn alliance(&self) -> (r: Alliance)
        ensures
            r == self@.alliance,
    {
        self.alliance
    }

    /// Tag of the unit: unique, and the same as long as the unit lives.
    pub fn tag(&self) -> (r: u64)
        ensures
            r == self@.tag,
    {
        self.tag
    }

    /// Type of the unit.
    pub fn type_id(&self) -> (r: UnitTypeId)
        ensures
            r == self@.type_id,
    {
        self.type_id
    }

    /// Player id of the owner.
    pub fn owner(&self) -> (r: u32)
        ensures
            r == self@.owner,
    {
        self.owner
    }

    /// Position on the map.
    pub fn position(&self) -> (r: Point2)
        ensures
            r == self@.position,
    {
        self.position
    }

    /// Position in the game's space.
    pub fn position3d(&self) -> (r: Point3)
        ensures
            r == self@.position3d,
    {
        self.position3d
    }

    /// Direction the unit faces, in 4096ths of a radian.
    pub fn facing(&self) -> (r: i32)
        ensures
            r == self@.facing,
    {
        self.facing
    }

    /// Radius of the unit, in 4096ths.
    pub fn radius(&self) -> (r: i32)
        ensures
            r == self@.radius,
    {
        self.radius
    }

    /// Progress of construction, from `0` to `SCALE`.
    pub fn build_progress(&self) -> (r: i32)
        ensures
            r == self@.build_progress,
    {
        self.build_progress
    }

    /// Whether the unit is burrowed or cloaked.
    pub fn is_cloaked(&self) -> (r: bool)
        ensures
            r == self@.is_cloaked,
    {
        self.is_cloaked
    }

    /// Whether the unit is cloaked and detected.
    pub fn is_revealed(&self) -> (r: bool)
        ensures
            r == self@.is_revealed,
    {
        self.is_revealed
    }

    /// Buffs the unit has.
    pub fn buffs(&self) -> (r: &[BuffId])
        ensures
            r@ == self@.buffs,
    {
        self.buffs.as_slice()
    }

    /// Range of detection, `0` for a unit that detects nothing; in 4096ths.
    pub fn detect_range(&self) -> (r: i32)
        ensures
            r == self@.detect_range,
    {
        self.detect_range
    }

    /// Range of a sensor tower, in 4096ths.
    pub fn radar_range(&self) -> (r: i32)
        ensures
            r == self@.radar_range,
    {
        self.radar_range
    }

    /// Whether the unit is selected.
    pub fn is_selected(&self) -> (r: bool)
        ensures
            r == self@.is_selected,
    {
        self.is_selected
    }

    /// Whether the unit is shown in the game's window.
    pub fn is_on_screen(&self) -> (r: bool)
        ensures
            r == self@.is_on_screen,
    {
        self.is_on_screen
    }

    /// Whether the unit is known from a sensor tower only.
    pub fn is_blip(&self) -> (r: bool)
        ensures
            r == self@.is_blip,
    {
        self.is_blip
    }

    /// Whether a protoss structure has power.
    pub fn is_powered(&self) -> (r: bool)
        ensures
            r == self@.is_powered,
    {
        self.is_powered
    }

    /// Whether a building trains or researches.
    pub fn is_active(&self) -> (r: bool)
        ensures
            r == self@.is_active,
    {
        self.is_active
    }

    /// Level of the general attack upgrade.
    pub fn attack_upgrade_level(&self) -> (r: u32)
        ensures
            r == self@.attack_upgrade_level,
    {
        self.attack_upgrade_level
    }

    /// Level of the general armor upgrade.
    pub fn armor_upgrade_level(&self) -> (r: i32)
        ensures
            r == self@.armor_upgrade_level,
    {
        self.armor_upgrade_level
    }

    /// Level of the general shield upgrade.
    pub fn shield_upgrade_level(&self) -> (r: i32)
        ensures
            r == self@.shield_upgrade_level,
    {
        self.shield_upgrade_level
    }

    /// Health; unknown for a snapshot.
    pub fn health(&self) -> (r: Option<u32>)
        ensures
            r == self@.health,
    {
        self.health
    }

    /// Greatest health; unknown for a snapshot.
    pub fn health_max(&self) -> (r: Option<u32>)
        ensures
            r == self@.health_max,
    {
        self.health_max
    }

    /// Shield; unknown for a snapshot.
    pub fn shield(&self) -> (r: Option<u32>)
        ensures
            r == self@.shield,
    {
        self.shield
    }

    /// Greatest shield; unknown for a snapshot.
    pub fn shield_max(&self) -> (r: Option<u32>)
        ensures
            r == self@.shield_max,
    {
        self.shield_max
    }

    /// Energy; unknown for a snapshot.
    pub fn energy(&self) -> (r: Option<u32>)
        ensures
            r == self@.energy,
    {
        self.energy
    }

    /// Greatest energy; unknown for a snapshot.
    pub fn energy_max(&self) -> (r: Option<u32>)
        ensures
            r == self@.energy_max,
    {
        self.energy_max
    }

    /// Minerals left in a mineral field; unknown for a snapshot.
    pub fn mineral_contents(&self) -> (r: Option<u32>)
        ensures
            r == self@.mineral_contents,
    {
        self.mineral_contents
    }

    /// Gas left in a geyser; unknown for a snapshot.
    pub fn vespene_contents(&self) -> (r: Option<u32>)
        ensures
            r == self@.vespene_contents,
    {
        self.vespene_contents
    }

    /// Whether the unit flies.
    pub fn is_flying(&self) -> (r: bool)
        ensures
            r == self@.is_flying,
    {
        self.is_flying
    }

    /// Whether the unit is burrowed.
    pub fn is_burrowed(&self) -> (r: bool)
        ensures
            r == self@.is_burrowed,
    {
        self.is_burrowed
    }

    /// Whether the unit is a hallucination.
    pub fn is_hallucination(&self) -> (r: bool)
        ensures
            r == self@.is_hallucination,
    {
        self.is_hallucination
    }

    /// Orders of the unit, the current one first; empty for an enemy.
    pub fn orders(&self) -> (r: &[UnitOrder])
        ensures
            r@ == self@.orders,
    {
        self.orders.as_slice()
    }

    /// Tag of the add-on, if the building has one.
    pub fn addon_tag(&self) -> (r: Option<u64>)
        ensures
            r == self@.addon_tag,
    {
        self.addon_tag
    }

    /// Units inside a transport or a bunker.
    pub fn passengers(&self) -> (r: &[PassengerUnit])
        ensures
            r@ == self@.passengers,
    {
        self.passengers.as_slice()
    }

    /// Space used in a transport or a bunker.
    pub fn cargo_space_taken(&self) -> (r: Option<u32>)
        ensures
            r == self@.cargo_space_taken,
    {
        self.cargo_space_taken
    }

    /// Space of a transport or a bunker.
    pub fn cargo_space_max(&self) -> (r: Option<u32>)
        ensures
            r == self@.cargo_space_max,
    {
        self.cargo_space_max
    }

    /// Workers on a gas building or a base.
    pub fn assigned_harvesters(&self) -> (r: Option<u32>)
        ensures
            r == self@.assigned_harvesters,
    {
        self.assigned_harvesters
    }

    /// Workers that a gas building or a base can use.
    pub fn ideal_harvesters(&self) -> (r: Option<u32>)
        ensures
            r == self@.ideal_harvesters,
    {
        self.ideal_harvesters
    }

    /// Frames until the weapon can fire again, in 4096ths.
    pub fn weapon_cooldown(&self) -> (r: Option<i32>)
        ensures
            r == self@.weapon_cooldown,
    {
        self.weapon_cooldown
    }

    /// Tag of the unit that is being attacked.
    pub fn engaged_target_tag(&self) -> (r: Option<u64>)
        ensures
            r == self@.engaged_target_tag,
    {
        self.engaged_target_tag
    }

    /// How long a buff or a timed unit still lasts.
    pub fn buff_duration_remain(&self) -> (r: Option<u32>)
        ensures
            r == self@.buff_duration_remain,
    {
        self.buff_duration_remain
    }

    /// How long a buff or a timed unit lasts at most.
    pub fn buff_duration_max(&self) -> (r: Option<u32>)
        ensures
            r == self@.buff_duration_max,
    {
        self.buff_duration_max
    }

    /// Rally points of a structure.
    pub fn rally_targets(&self) -> (r: &[RallyTarget])
        ensures
            r@ == self@.rally_targets,
    {
        self.rally_targets.as_slice()
    }

}
impl Unit {
    /// Takes in a unit as the game reports it; see [`spec_from_raw`] for what
    /// is corrected. A unit whose type, or one of whose passengers' types, is
    /// not known is refused: such a report is malformed.
    pub fn from_raw(raw: &RawUnit, visibility: &Grid<Visibility>) -> (r: Result<Unit, SnapshotError>)
        ensures
            r.is_ok() == (raw.unit_type.is_some() && passengers_known(raw.passengers@)),
            match r {
                Ok(u) => u@ == spec_from_raw(*raw, visibility),
                Err(e) => e == SnapshotError::UnknownUnitType(raw.tag),
            },
    {
        let type_id = match raw.unit_type {
            Some(t) => t,
            None => {
                return Err(SnapshotError::UnknownUnitType(raw.tag));
            },
        };
        let position = Point2 { x: raw.pos.x, y: raw.pos.y };
        let (is_cloaked, is_revealed) = if raw.is_burrowed {
            (true, false)
        } else {
            match raw.cloak {
                CloakState::CloakedUnknown | CloakState::NotCloaked => (false, false),
                CloakState::Cloaked | CloakState::CloakedAllied => (true, false),
                CloakState::CloakedDetected => (true, true),
            }
        };
        let display_type = match raw.display_type {
            DisplayType::Visible => {
                let seen = match visibility.get(position.cell()) {
                    Some(v) => v.is_visible(),
                    None => false,
                };
                if seen {
                    DisplayType::Visible
                } else {
                    DisplayType::Snapshot
                }
            },
            x => x,
        };
        let mut buffs: Vec<BuffId> = Vec::new();
        let mut i: usize = 0;
        while i < raw.buff_ids.len()
            invariant
                i <= raw.buff_ids.len(),
                buffs@ == known_buffs(raw.buff_ids@.take(i as int)),
            decreases raw.buff_ids.len() - i,
        {
            assert(raw.buff_ids@.take(i + 1).drop_last() =~= raw.buff_ids@.take(i as int));
            match BuffId::from_u32(raw.buff_ids[i]) {
                Some(b) => {
                    buffs.push(b);
                },
                None => {},
            }
            i += 1;
        }
        assert(raw.buff_ids@.take(raw.buff_ids.len() as int) =~= raw.buff_ids@);
        let mut orders: Vec<UnitOrder> = Vec::new();
        let mut i: usize = 0;
        while i < raw.orders.len()
            invariant
                i <= raw.orders.len(),
                orders@ == known_orders(raw.orders@.take(i as int)),
            decreases raw.orders.len() - i,
        {
            assert(raw.orders@.take(i + 1).drop_last() =~= raw.orders@.take(i as int));
            let o = raw.orders[i];
            match o.ability {
                Some(ability) => {
                    orders.push(UnitOrder { ability, target: o.target, progress: o.progress });
                },
                None => {},
            }
            i += 1;
        }
        assert(raw.orders@.take(raw.orders.len() as int) =~= raw.orders@);
        let mut passengers: Vec<PassengerUnit> = Vec::new();
        let mut i: usize = 0;
        while i < raw.passengers.len()
            invariant
                i <= raw.passengers.len(),
                passengers.len() == i,
                forall|j: int| 0 <= j < i ==> (#[trigger] raw.passengers[j]).unit_type.is_some(),
                forall|j: int| 0 <= j < i ==> #[trigger] passengers[j] == passenger_of(raw.passengers[j]),
            decreases raw.passengers.len() - i,
        {
            let p = raw.passengers[i];
            match p.unit_type {
                Some(t) => {
                    passengers.push(
                        PassengerUnit {
                            tag: p.tag,
                            health: p.health,
                            health_max: p.health_max,
                            shield: p.shield,
                            shield_max: p.shield_max,
                            energy: p.energy,
                            energy_max: p.energy_max,
                            type_id: t,
                        },
                    );
                },
                None => {
                    return Err(SnapshotError::UnknownUnitType(raw.tag));
                },
            }
            i += 1;
        }
        assert(passengers@ =~= raw.passengers@.map_values(|p: RawPassenger| passenger_of(p)));
        let u = Unit {
            display_type,
            alliance: raw.alliance,
            tag: raw.tag,
            type_id,
            owner: raw.owner,
            position,
            position3d: raw.pos,
            facing: raw.facing,
            radius: raw.radius,
            build_progress: raw.build_progress,
            is_cloaked,
            is_revealed,
            buffs,
            detect_range: match type_id {
                UnitTypeId::Observer => OBSERVER_DETECT_RANGE,
                UnitTypeId::ObserverSiegeMode => OBSERVER_SIEGED_DETECT_RANGE,
                _ => raw.detect_range,
            },
            radar_range: raw.radar_range,
            is_selected: raw.is_selected,
            is_on_screen: raw.is_on_screen,
            is_blip: raw.is_blip,
            is_powered: raw.is_powered,
            is_active: raw.is_active,
            attack_upgrade_level: raw.attack_upgrade_level,
            armor_upgrade_level: raw.armor_upgrade_level,
            shield_upgrade_level: raw.shield_upgrade_level,
            health: raw.health,
            health_max: raw.health_max,
            shield: raw.shield,
            shield_max: raw.shield_max,
            energy: raw.energy,
            energy_max: raw.energy_max,
            mineral_contents: raw.mineral_contents,
            vespene_contents: raw.vespene_contents,
            is_flying: raw.is_flying,
            is_burrowed: raw.is_burrowed,
            is_hallucination: raw.is_hallucination,
            orders,
            addon_tag: raw.add_on_tag,
            passengers,
            cargo_space_taken: raw.cargo_space_taken,
            cargo_space_max: raw.cargo_space_max,
            assigned_harvesters: raw.assigned_harvesters,
            ideal_harvesters: raw.ideal_harvesters,
            weapon_cooldown: raw.weapon_cooldown,
            engaged_target_tag: raw.engaged_target_tag,
            buff_duration_remain: raw.buff_duration_remain,
            buff_duration_max: raw.buff_duration_max,
            rally_targets: copy_of(&raw.rally_targets),
        };
        Ok(u)
    }
}

/// Whether a sequence of attributes holds `attribute`.
pub open spec fn has_attr(attributes: Seq<Attribute>, attribute: Attribute) -> bool {
    exists|i: int| 0 <= i < attributes.len() && attributes[i] == attribute
}

/// The sum of two numbers, or the greatest `u32` where the sum is greater.
pub open spec fn capped_sum(a: int, b: int) -> int {
    if a + b > u32::MAX {
        u32::MAX as int
    } else {
        a + b
    }
}

/// Shield that the barrier of an immortal adds to the unit's hits.
pub const IMMORTAL_BARRIER: u32 = 100;

impl UnitView {
    /// Whether the rules give the unit's type the attribute.
    pub open spec fn has_attribute(self, data: &GameData, attribute: Attribute) -> bool {
        match data.spec_unit(self.type_id) {
            Some(d) => has_attr(d.attributes@, attribute),
            None => false,
        }
    }

    /// Whether the unit is a structure.
    pub open spec fn is_structure(self, data: &GameData) -> bool {
        self.has_attribute(data, Attribute::Structure)
    }

    /// Race of the unit's type; random where the rules do not know the type.
    pub open spec fn race(self, data: &GameData) -> Race {
        match data.spec_unit(self.type_id) {
            Some(d) => d.race,
            None => Race::Random,
        }
    }

    /// Whether the unit holds vespene gas to harvest.
    pub open spec fn is_geyser(self, data: &GameData) -> bool {
        match data.spec_unit(self.type_id) {
            Some(d) => d.has_vespene,
            None => false,
        }
    }

    /// Whether the unit holds minerals to harvest.
    pub open spec fn is_mineral(self, data: &GameData) -> bool {
        match data.spec_unit(self.type_id) {
            Some(d) => d.has_minerals,
            None => false,
        }
    }

    /// Whether construction is complete.
    pub open spec fn is_ready(self) -> bool {
        self.build_progress == SCALE
    }

    /// Whether construction is at least 95% complete.
    pub open spec fn is_almost_ready(self) -> bool {
        self.build_progress * 100 >= 95 * SCALE
    }

    /// Whether the unit detects cloaked and burrowed units.
    pub open spec fn is_detector(self) -> bool {
        ||| self.type_id == UnitTypeId::Observer
        ||| self.type_id == UnitTypeId::ObserverSiegeMode
        ||| self.type_id == UnitTypeId::Raven
        ||| self.type_id == UnitTypeId::Overseer
        ||| self.type_id == UnitTypeId::OverseerSiegeMode
        ||| (self.is_almost_ready() && (self.type_id == UnitTypeId::MissileTurret || self.type_id
            == UnitTypeId::SporeCrawler || (self.type_id == UnitTypeId::PhotonCannon
            && self.is_powered)))
    }

    /// Whether the unit can be attacked: it is detected, or not cloaked at all.
    pub open spec fn can_be_attacked(self) -> bool {
        self.is_revealed || !self.is_cloaked
    }

    /// Whether the unit is cloaked or burrowed, and not detected.
    pub open spec fn is_invisible(self) -> bool {
        self.is_cloaked && !self.is_revealed
    }

    /// Whether the unit has the buff.
    pub open spec fn has_buff(self, buff: BuffId) -> bool {
        exists|i: int| 0 <= i < self.buffs.len() && self.buffs[i] == buff
    }

    /// Health and shield together, with the barrier of an immortal; unknown
    /// where both are unknown. Capped at the greatest `u32`.
    pub open spec fn hits(self) -> Option<int> {
        let extra: int = if self.has_buff(BuffId::ImmortalOverload) {
            IMMORTAL_BARRIER as int
        } else {
            0
        };
        match (self.health, self.shield) {
            (Some(health), Some(shield)) => Some(
                capped_sum(capped_sum(health as int, shield as int), extra),
            ),
            (Some(health), None) => Some(capped_sum(health as int, extra)),
            (None, Some(shield)) => Some(capped_sum(shield as int, extra)),
            (None, None) => None,
        }
    }

    /// Greatest health and greatest shield together; unknown where both are
    /// unknown. Capped at the greatest `u32`.
    pub open spec fn hits_max(self) -> Option<int> {
        match (self.health_max, self.shield_max) {
            (Some(health), Some(shield)) => Some(capped_sum(health as int, shield as int)),
            (Some(health), None) => Some(health as int),
            (None, Some(shield)) => Some(shield as int),
            (None, None) => None,
        }
    }
}

/// Checks if a list of attributes holds `attribute`.
pub fn contains_attribute(attributes: &Vec<Attribute>, attribute: Attribute) -> (r: bool)
    ensures
        r == has_attr(attributes@, attribute),
{
    let mut i: usize = 0;
    while i < attributes.len()
        invariant
            i <= attributes.len(),
            forall|j: int| 0 <= j < i ==> attributes[j] != attribute,
        decreases attributes.len() - i,
    {
        if attributes[i] == attribute {
            return true;
        }
        i += 1;
    }
    false
}

impl Unit {
    /// Checks if the rules give the unit's type the attribute.
    pub fn has_attribute(&self, data: &GameData, attribute: Attribute) -> (r: bool)
        ensures
            r == self@.has_attribute(data, attribute),
    {
        match data.unit(self.type_id) {
            Some(d) => contains_attribute(&d.attributes, attribute),
            None => false,
        }
    }

    /// Checks if the unit is a structure.
    pub fn is_structure(&self, data: &GameData) -> (r: bool)
        ensures
            r == self@.is_structure(data),
    {
        self.has_attribute(data, Attribute::Structure)
    }

    /// Checks if the unit is light.
    pub fn is_light(&self, data: &GameData) -> (r: bool)
        ensures
            r == self@.has_attribute(data, Attribute::Light),
    {
        self.has_attribute(data, Attribute::Light)
    }

    /// Checks if the unit is armored.
    pub fn is_armored(&self, data: &GameData) -> (r: bool)
        ensures
            r == self@.has_attribute(data, Attribute::Armored),
    {
        self.has_attribute(data, Attribute::Armored)
    }

    /// Checks if the unit is biological.
    pub fn is_biological(&self, data: &GameData) -> (r: bool)
        ensures
            r == self@.has_attribute(data, Attribute::Biological),
    {
        self.has_attribute(data, Attribute::Biological)
    }

    /// Checks if the unit is mechanical.
    pub fn is_mechanical(&self, data: &GameData) -> (r: bool)
        ensures
            r == self@.has_attribute(data, Attribute::Mechanical),
    {
        self.has_attribute(data, Attribute::Mechanical)
    }

    /// Checks if the unit is robotic.
    pub fn is_robotic(&self, data: &GameData) -> (r: bool)
        ensures
            r == self@.has_attribute(data, Attribute::Robotic),
    {
        self.has_attribute(data, Attribute::Robotic)
    }

    /// Checks if the unit is psionic.
    pub fn is_psionic(&self, data: &GameData) -> (r: bool)
        ensures
            r == self@.has_attribute(data, Attribute::Psionic),
    {
        self.has_attribute(data, Attribute::Psionic)
    }

    /// Checks if the unit is massive.
    pub fn is_massive(&self, data: &GameData) -> (r: bool)
        ensures
            r == self@.has_attribute(data, Attribute::Massive),
    {
        self.has_attribute(data, Attribute::Massive)
    }

    /// Checks if the unit hovers.
    pub fn is_hover(&self, data: &GameData) -> (r: bool)
        ensures
            r == self@.has_attribute(data, Attribute::Hover),
    {
        self.has_attribute(data, Attribute::Hover)
    }

    /// Checks if the unit is heroic.
    pub fn is_heroic(&self, data: &GameData) -> (r: bool)
        ensures
            r == self@.has_attribute(data, Attribute::Heroic),
    {
        self.has_attribute(data, Attribute::Heroic)
    }

    /// Checks if the unit is summoned.
    pub fn is_summoned(&self, data: &GameData) -> (r: bool)
        ensures
            r == self@.has_attribute(data, Attribute::Summoned),
    {
        self.has_attribute(data, Attribute::Summoned)
    }

    /// Race of the unit's type; random where the rules do not know the type.
    pub fn race(&self, data: &GameData) -> (r: Race)
        ensures
            r == self@.race(data),
    {
        match data.unit(self.type_id) {
            Some(d) => d.race,
            None => Race::Random,
        }
    }

    /// Checks if the unit holds vespene gas to harvest.
    pub fn is_geyser(&self, data: &GameData) -> (r: bool)
        ensures
            r == self@.is_geyser(data),
    {
        match data.unit(self.type_id) {
            Some(d) => d.has_vespene,
            None => false,
        }
    }

    /// Checks if the unit holds minerals to harvest.
    pub fn is_mineral(&self, data: &GameData) -> (r: bool)
        ensures
            r == self@.is_mineral(data),
    {
        match data.unit(self.type_id) {
            Some(d) => d.has_minerals,
            None => false,
        }
    }

    /// Armor of the unit's type without upgrades.
    pub fn armor(&self, data: &GameData) -> (r: i32)
        ensures
            r == match data.spec_unit(self@.type_id) {
                Some(d) => d.armor,
                None => 0,
            },
    {
        match data.unit(self.type_id) {
            Some(d) => d.armor,
            None => 0,
        }
    }

    /// Space that the unit takes in a transport.
    pub fn cargo_size(&self, data: &GameData) -> (r: u32)
        ensures
            r == match data.spec_unit(self@.type_id) {
                Some(d) => d.cargo_size,
                None => 0,
            },
    {
        match data.unit(self.type_id) {
            Some(d) => d.cargo_size,
            None => 0,
        }
    }

    /// How far the unit sees, in 4096ths.
    pub fn sight_range(&self, data: &GameData) -> (r: i32)
        ensures
            r == match data.spec_unit(self@.type_id) {
                Some(d) => d.sight_range,
                None => 0,
            },
    {
        match data.unit(self.type_id) {
            Some(d) => d.sight_range,
            None => 0,
        }
    }

    /// Speed of the unit's type without buffs and upgrades, in 4096ths per
    /// second.
    pub fn speed(&self, data: &GameData) -> (r: i32)
        ensures
            r == match data.spec_unit(self@.type_id) {
                Some(d) => d.movement_speed,
                None => 0,
            },
    {
        match data.unit(self.type_id) {
            Some(d) => d.movement_speed,
            None => 0,
        }
    }

    /// How long a unit of this type takes to make, in 4096ths of a second.
    pub fn build_time(&self, data: &GameData) -> (r: i32)
        ensures
            r == match data.spec_unit(self@.type_id) {
                Some(d) => d.build_time,
                None => 0,
            },
    {
        match data.unit(self.type_id) {
            Some(d) => d.build_time,
            None => 0,
        }
    }

    /// Supply that the unit takes, in 4096ths.
    pub fn supply_cost(&self, data: &GameData) -> (r: i32)
        ensures
            r == match data.spec_unit(self@.type_id) {
                Some(d) => d.food_required,
                None => 0,
            },
    {
        match data.unit(self.type_id) {
            Some(d) => d.food_required,
            None => 0,
        }
    }

    /// Supply that the unit gives, in 4096ths.
    pub fn supply_provided(&self, data: &GameData) -> (r: i32)
        ensures
            r == match data.spec_unit(self@.type_id) {
                Some(d) => d.food_provided,
                None => 0,
            },
    {
        match data.unit(self.type_id) {
            Some(d) => d.food_provided,
            None => 0,
        }
    }

    /// Checks if the unit is a worker.
    pub fn is_worker(&self) -> (r: bool)
        ensures
            r == self@.type_id.spec_is_worker(),
    {
        self.type_id.is_worker()
    }

    /// Checks if the unit is a main building.
    pub fn is_townhall(&self) -> (r: bool)
        ensures
            r == self@.type_id.spec_is_townhall(),
    {
        self.type_id.is_townhall()
    }

    /// Checks if the unit is an add-on.
    pub fn is_addon(&self) -> (r: bool)
        ensures
            r == self@.type_id.spec_is_addon(),
    {
        self.type_id.is_addon()
    }

    /// Checks if the unit fights hand to hand: its type is among those that
    /// the rules list as doing so.
    pub fn is_melee(&self, data: &GameData) -> (r: bool)
        ensures
            r == has_type(data.melee_ids@, self@.type_id),
    {
        contains_type(&data.melee_ids, self.type_id)
    }

    /// Checks if construction is complete.
    pub fn is_ready(&self) -> (r: bool)
        ensures
            r == self@.is_ready(),
    {
        self.build_progress == SCALE
    }

    /// Checks if construction is at least 95% complete.
    pub fn is_almost_ready(&self) -> (r: bool)
        ensures
            r == self@.is_almost_ready(),
    {
        self.build_progress as i64 * 100 >= 95 * (SCALE as i64)
    }

    /// Checks if the unit detects cloaked and burrowed units.
    pub fn is_detector(&self) -> (r: bool)
        ensures
            r == self@.is_detector(),
    {
        matches!(
            self.type_id,
            UnitTypeId::Observer | UnitTypeId::ObserverSiegeMode | UnitTypeId::Raven
                | UnitTypeId::Overseer | UnitTypeId::OverseerSiegeMode
        ) || (self.is_almost_ready() && (matches!(
            self.type_id,
            UnitTypeId::MissileTurret | UnitTypeId::SporeCrawler
        ) || (matches!(self.type_id, UnitTypeId::PhotonCannon) && self.is_powered)))
    }

    /// Checks if the building has an add-on.
    pub fn has_addon(&self) -> (r: bool)
        ensures
            r == self@.addon_tag.is_some(),
    {
        self.addon_tag.is_some()
    }

    /// Checks if the unit is seen now.
    pub fn is_visible(&self) -> (r: bool)
        ensures
            r == (self@.display_type == DisplayType::Visible),
    {
        self.display_type.is_visible()
    }

    /// Checks if the unit is remembered, not seen.
    pub fn is_snapshot(&self) -> (r: bool)
        ensures
            r == (self@.display_type == DisplayType::Snapshot),
    {
        self.display_type.is_snapshot()
    }

    /// Checks if the unit is not seen.
    pub fn is_hidden(&self) -> (r: bool)
        ensures
            r == (self@.display_type == DisplayType::Hidden),
    {
        self.display_type.is_hidden()
    }

    /// Checks if the unit is a building that has not begun.
    pub fn is_placeholder(&self) -> (r: bool)
        ensures
            r == (self@.display_type == DisplayType::Placeholder),
    {
        self.display_type.is_placeholder()
    }

    /// Checks if the unit is the bot's own.
    pub fn is_mine(&self) -> (r: bool)
        ensures
            r == (self@.alliance == Alliance::Own),
    {
        self.alliance.is_mine()
    }

    /// Checks if the unit is the opponent's.
    pub fn is_enemy(&self) -> (r: bool)
        ensures
            r == (self@.alliance == Alliance::Enemy),
    {
        self.alliance.is_enemy()
    }

    /// Checks if the unit is owned by nobody.
    pub fn is_neutral(&self) -> (r: bool)
        ensures
            r == (self@.alliance == Alliance::Neutral),
    {
        self.alliance.is_neutral()
    }

    /// Checks if the unit is an ally's.
    pub fn is_ally(&self) -> (r: bool)
        ensures
            r == (self@.alliance == Alliance::Ally),
    {
        self.alliance.is_ally()
    }

    /// Checks if the unit can be attacked: it is detected, or not cloaked at
    /// all.
    pub fn can_be_attacked(&self) -> (r: bool)
        ensures
            r == self@.can_be_attacked(),
    {
        self.is_revealed || !self.is_cloaked
    }

    /// Checks if the unit is cloaked or burrowed, and not detected.
    pub fn is_invisible(&self) -> (r: bool)
        ensures
            r == self@.is_invisible(),
    {
        self.is_cloaked && !self.is_revealed
    }

    /// Checks if the unit has the buff.
    pub fn has_buff(&self, buff: BuffId) -> (r: bool)
        ensures
            r == self@.has_buff(buff),
    {
        let mut i: usize = 0;
        while i < self.buffs.len()
            invariant
                i <= self.buffs.len(),
                forall|j: int| 0 <= j < i ==> self.buffs[j] != buff,
            decreases self.buffs.len() - i,
        {
            if self.buffs[i] == buff {
                assert(self@.buffs[i as int] == buff);
                return true;
            }
            i += 1;
        }
        false
    }

    /// Checks if the unit has any of the buffs.
    pub fn has_any_buff(&self, buffs: &[BuffId]) -> (r: bool)
        ensures
            r == exists|i: int| 0 <= i < buffs@.len() && self@.has_buff(#[trigger] buffs@[i]),
    {
        let mut i: usize = 0;
        while i < buffs.len()
            invariant
                i <= buffs.len(),
                forall|j: int| 0 <= j < i ==> !self@.has_buff(#[trigger] buffs@[j]),
            decreases buffs.len() - i,
        {
            if self.has_buff(buffs[i]) {
                return true;
            }
            i += 1;
        }
        false
    }

    /// Checks if the worker carries minerals.
    pub fn is_carrying_minerals(&self) -> (r: bool)
        ensures
            r == (self@.has_buff(BuffId::CarryMineralFieldMinerals) || self@.has_buff(
                BuffId::CarryHighYieldMineralFieldMinerals,
            )),
    {
        self.has_buff(BuffId::CarryMineralFieldMinerals) || self.has_buff(
            BuffId::CarryHighYieldMineralFieldMinerals,
        )
    }

    /// Checks if the worker carries vespene gas.
    pub fn is_carrying_vespene(&self) -> (r: bool)
        ensures
            r == (self@.has_buff(BuffId::CarryHarvestableVespeneGeyserGas) || self@.has_buff(
                BuffId::CarryHarvestableVespeneGeyserGasProtoss,
            ) || self@.has_buff(BuffId::CarryHarvestableVespeneGeyserGasZerg)),
    {
        self.has_buff(BuffId::CarryHarvestableVespeneGeyserGas) || self.has_buff(
            BuffId::CarryHarvestableVespeneGeyserGasProtoss,
        ) || self.has_buff(BuffId::CarryHarvestableVespeneGeyserGasZerg)
    }

    /// Checks if the worker carries minerals or vespene gas.
    pub fn is_carrying_resource(&self) -> (r: bool)
        ensures
            r == (self@.has_buff(BuffId::CarryMineralFieldMinerals) || self@.has_buff(
                BuffId::CarryHighYieldMineralFieldMinerals,
            ) || self@.has_buff(BuffId::CarryHarvestableVespeneGeyserGas) || self@.has_buff(
                BuffId::CarryHarvestableVespeneGeyserGasProtoss,
            ) || self@.has_buff(BuffId::CarryHarvestableVespeneGeyserGasZerg)),
    {
        self.is_carrying_minerals() || self.is_carrying_vespene()
    }

    /// Health and shield together, with the barrier of an immortal; unknown
    /// where both are unknown. Capped at the greatest `u32`.
    pub fn hits(&self) -> (r: Option<u32>)
        ensures
            match r {
                Some(h) => self@.hits() == Some(h as int),
                None => self@.hits().is_none(),
            },
    {
        let extra: u32 = if self.has_buff(BuffId::ImmortalOverload) {
            IMMORTAL_BARRIER
        } else {
            0
        };
        match (self.health, self.shield) {
            (Some(health), Some(shield)) => Some(
                health.saturating_add(shield).saturating_add(extra),
            ),
            (Some(health), None) => Some(health.saturating_add(extra)),
            (None, Some(shield)) => Some(shield.saturating_add(extra)),
            (None, None) => None,
        }
    }

    /// Greatest health and greatest shield together; unknown where both are
    /// unknown. Capped at the greatest `u32`.
    pub fn hits_max(&self) -> (r: Option<u32>)
        ensures
            match r {
                Some(h) => self@.hits_max() == Some(h as int),
                None => self@.hits_max().is_none(),
            },
    {
        match (self.health_max, self.shield_max) {
            (Some(health), Some(shield)) => Some(health.saturating_add(shield)),
            (Some(health), None) => Some(health),
            (None, Some(shield)) => Some(shield),
            (None, None) => None,
        }
    }

    /// Checks if the transport or bunker holds any unit.
    pub fn has_cargo(&self) -> (r: bool)
        ensures
            r == (self@.cargo_space_taken.is_some() && self@.cargo_space_taken.unwrap() > 0),
    {
        match self.cargo_space_taken {
            Some(taken) => taken > 0,
            None => false,
        }
    }

    /// Space left in the transport or bunker; unknown where either number is
    /// unknown or more space is taken than there is.
    pub fn cargo_left(&self) -> (r: Option<u32>)
        ensures
            r == match (self@.cargo_space_max, self@.cargo_space_taken) {
                (Some(max), Some(taken)) => if taken <= max {
                    Some((max - taken) as u32)
                } else {
                    None
                },
                _ => None,
            },
    {
        match (self.cargo_space_max, self.cargo_space_taken) {
            (Some(max), Some(taken)) => max.checked_sub(taken),
            _ => None,
        }
    }

    /// Damage that the unit took since the observation before, given the hits
    /// it had then; `0` where either is unknown or the unit took none.
    pub fn damage_taken(&self, last_hits: Option<u32>) -> (r: u32)
        ensures
            r == match (self@.hits(), last_hits) {
                (Some(now), Some(then)) => if then > now {
                    then - now
                } else {
                    0
                },
                _ => 0,
            },
    {
        match (self.hits(), last_hits) {
            (Some(now), Some(then)) => then.saturating_sub(now),
            _ => 0,
        }
    }

    /// Checks if the unit was attacked since the observation before, given
    /// the hits it had then. Unknown hits count as fewer than any known.
    pub fn is_attacked(&self, last_hits: Option<u32>) -> (r: bool)
        ensures
            r == match (self@.hits(), last_hits) {
                (Some(now), Some(then)) => now < then,
                (None, Some(_)) => true,
                _ => false,
            },
    {
        match (self.hits(), last_hits) {
            (Some(now), Some(then)) => now < then,
            (None, Some(_)) => true,
            _ => false,
        }
    }
}

impl Unit {
    /// A complete unit that is seen, with nothing else known of it: no
    /// health, no orders, no buffs, and nothing set.
    pub fn blank(tag: u64, type_id: UnitTypeId, alliance: Alliance, position: Point2) -> (r: Unit)
        ensures
            r@.display_type == DisplayType::Visible,
            r@.alliance == alliance,
            r@.tag == tag,
            r@.type_id == type_id,
            r@.owner == 0,
            r@.position == position,
            r@.position3d == (Point3 { x: position.x, y: position.y, z: 0 }),
            r@.facing == 0,
            r@.radius == 0,
            r@.build_progress == SCALE,
            r@.is_cloaked == false,
            r@.is_revealed == false,
            r@.buffs.len() == 0,
            r@.detect_range == 0,
            r@.radar_range == 0,
            r@.is_selected == false,
            r@.is_on_screen == false,
            r@.is_blip == false,
            r@.is_powered == false,
            r@.is_active == false,
            r@.attack_upgrade_level == 0,
            r@.armor_upgrade_level == 0,
            r@.shield_upgrade_level == 0,
            r@.health.is_none(),
            r@.health_max.is_none(),
            r@.shield.is_none(),
            r@.shield_max.is_none(),
            r@.energy.is_none(),
            r@.energy_max.is_none(),
            r@.mineral_contents.is_none(),
            r@.vespene_contents.is_none(),
            r@.is_flying == false,
            r@.is_burrowed == false,
            r@.is_hallucination == false,
            r@.orders.len() == 0,
            r@.addon_tag.is_none(),
            r@.passengers.len() == 0,
            r@.cargo_space_taken.is_none(),
            r@.cargo_space_max.is_none(),
            r@.assigned_harvesters.is_none(),
            r@.ideal_harvesters.is_none(),
            r@.weapon_cooldown.is_none(),
            r@.engaged_target_tag.is_none(),
            r@.buff_duration_remain.is_none(),
            r@.buff_duration_max.is_none(),
            r@.rally_targets.len() == 0,
    {
        Unit {
            display_type: DisplayType::Visible,
            alliance,
            tag,
            type_id,
            owner: 0,
            position,
            position3d: Point3 { x: position.x, y: position.y, z: 0 },
            facing: 0,
            radius: 0,
            build_progress: SCALE,
            is_cloaked: false,
            is_revealed: false,
            buffs: Vec::new(),
            detect_range: 0,
            radar_range: 0,
            is_selected: false,
            is_on_screen: false,
            is_blip: false,
            is_powered: false,
            is_active: false,
            attack_upgrade_level: 0,
            armor_upgrade_level: 0,
            shield_upgrade_level: 0,
            health: None,
            health_max: None,
            shield: None,
            shield_max: None,
            energy: None,
            energy_max: None,
            mineral_contents: None,
            vespene_contents: None,
            is_flying: false,
            is_burrowed: false,
            is_hallucination: false,
            orders: Vec::new(),
            addon_tag: None,
            passengers: Vec::new(),
            cargo_space_taken: None,
            cargo_space_max: None,
            assigned_harvesters: None,
            ideal_harvesters: None,
            weapon_cooldown: None,
            engaged_target_tag: None,
            buff_duration_remain: None,
            buff_duration_max: None,
            rally_targets: Vec::new(),
        }
    }
}

impl RawUnit {
    /// Report of a complete unit that is seen and not cloaked, with nothing
    /// else told of it.
    pub fn blank(tag: u64, unit_type: Option<UnitTypeId>, alliance: Alliance, pos: Point3) -> (r: RawUnit)
        ensures
            r.tag == tag,
            r.unit_type == unit_type,
            r.alliance == alliance,
            r.pos == pos,
            r.display_type == DisplayType::Visible,
            r.cloak == CloakState::NotCloaked,
            r.build_progress == SCALE,
            !r.is_burrowed,
            !r.is_flying,
            !r.is_hallucination,
            r.buff_ids@.len() == 0,
            r.orders@.len() == 0,
            r.passengers@.len() == 0,
            r.rally_targets@.len() == 0,
            r.health.is_none(),
            r.shield.is_none(),
            r.detect_range == 0,
    {
        RawUnit {
            display_type: DisplayType::Visible,
            alliance,
            tag,
            unit_type,
            owner: 0,
            pos,
            facing: 0,
            radius: 0,
            build_progress: SCALE,
            cloak: CloakState::NotCloaked,
            buff_ids: Vec::new(),
            detect_range: 0,
            radar_range: 0,
            is_selected: false,
            is_on_screen: false,
            is_blip: false,
            is_powered: false,
            is_active: false,
            attack_upgrade_level: 0,
            armor_upgrade_level: 0,
            shield_upgrade_level: 0,
            health: None,
            health_max: None,
            shield: None,
            shield_max: None,
            energy: None,
            energy_max: None,
            mineral_contents: None,
            vespene_contents: None,
            is_flying: false,
            is_burrowed: false,
            is_hallucination: false,
            orders: Vec::new(),
            add_on_tag: None,
            passengers: Vec::new(),
            cargo_space_taken: None,
            cargo_space_max: None,
            assigned_harvesters: None,
            ideal_harvesters: None,
            weapon_cooldown: None,
            engaged_target_tag: None,
            buff_duration_remain: None,
            buff_duration_max: None,
            rally_targets: Vec::new(),
        }
    }
}

impl Unit {
    /// Name of the unit's type; empty where the rules do not know the type.
    pub fn name<'a>(&self, data: &'a GameData) -> (r: &'a str)
        ensures
            r@ == match data.spec_unit(self@.type_id) {
                Some(d) => d.name@,
                None => Seq::<char>::empty(),
            },
    {
        match data.unit(self.type_id) {
            Some(d) => d.name.as_str(),
            None => {
                let r = "";
                proof {
                    reveal_strlit("");
                }
                assert(r@ =~= Seq::<char>::empty());
                r
            },
        }
    }

    /// Price of a unit of the unit's type; nothing where the rules do not
    /// know the type.
    pub fn cost(&self, data: &GameData) -> (c: crate::game_data::Cost)
        ensures
            c == match data.spec_unit(self@.type_id) {
                Some(d) => crate::game_data::Cost {
                    minerals: d.mineral_cost,
                    vespene: d.vespene_cost,
                    supply: d.food_required,
                    time: d.build_time,
                },
                None => crate::game_data::Cost { minerals: 0, vespene: 0, supply: 0, time: 0 },
            },
    {
        match data.unit(self.type_id) {
            Some(d) => d.cost(),
            None => crate::game_data::Cost { minerals: 0, vespene: 0, supply: 0, time: 0 },
        }
    }
}

} // verus!
