//! The bot's knowledge of the game, brought up to date with each observation.
use vstd::prelude::*;
use crate::action::{Action, Commander, Pending, Point3};
use crate::burial::{after_deaths, bury_all, death_events, minerals_of_bases, same_bases, Known};
use crate::cache::{remembered, scene_of, update_cache};
use crate::census::{
    count_enemies, count_own, enemy_current, enemy_ordered, order_count, ready_count,
};
use crate::classify::{classify, pick_player, player_groups, sort_player, sorted, PlayerGroup};
use crate::counter::Counter;
use crate::dbscan::clustering;
use crate::events::{lifecycle, lifecycle_events, next_building, next_owned};
use crate::expansion::{
    base_resources, cluster_center, every_resource, every_resource_from, find_expansions,
    has_no_site, holder, locations, members, order_expansions, refresh_occupancy, resource_graph,
    resources_from, scores, sites_of, start_center, start_center_of, Expansion, ExpansionError,
    StartSite,
};
use crate::game_data::{Cost, GameData};
use crate::game_state::{Alliance, Event, GameInfo, GameState, Race};
use crate::geometry::{cell_of, towards_of, Point2, SCALE, Visibility};
use crate::ids::{AbilityId, UnitTypeId, UpgradeId};
use crate::order::rising_order;
use crate::ramp::{
    area_cells, cell_graph, find_ramps, has_width, is_nearest, main_ramp, ramps_of, scan_slopes,
    Ramp,
};
use crate::tags::{TagMap, TagSet};
use crate::unit::{Unit, UnitView};
use crate::units::{AllUnits, PlayerUnits, Units};
use crate::upkeep::{
    addon_tags, all_exposed, all_marked, cooldown_in, expose_own, find_addons, hallucination_tags,
    hits_of, mark_hallucinations, note_hallucinations, peak, raise_cooldowns, remember_hits,
    remember_seen, seen_of,
};

verus! {

/// The ramps of the map.
pub struct Ramps {
    /// All ramps.
    pub all: Vec<Ramp>,
    /// Place in `all` of the ramp to the bot's base, if one was found.
    pub my: Option<usize>,
    /// Place in `all` of the ramp to the opponent's base, if one was found.
    pub enemy: Option<usize>,
}

/// Options of the search for a place to build.
#[derive(Debug, Clone, Copy, PartialEq, Eq, Structural)]
pub struct PlacementOptions {
    /// How far from the given position places are tried, in cells.
    pub max_distance: isize,
    /// Distance between two places that are tried, in cells.
    pub step: isize,
    /// Whether any place that is found will do, or the nearest is wanted.
    pub random: bool,
    /// Whether an add-on must fit beside the building.
    pub addon: bool,
}

impl Default for PlacementOptions {
    fn default() -> (r: PlacementOptions)
        ensures
            r == (PlacementOptions { max_distance: 17, step: 2, random: false, addon: false }),
    {
        PlacementOptions { max_distance: 17, step: 2, random: false, addon: false }
    }
}

/// Which other types count with a type of unit.
#[derive(Debug, Clone, Copy, PartialEq, Eq, Structural)]
pub enum UnitAlias {
    /// No other type.
    Alone,
    /// The other form of a unit that has two.
    Unit,
    /// The types that stand for the same step of the tech tree.
    Tech,
}

impl Default for UnitAlias {
    fn default() -> (r: UnitAlias)
        ensures
            r == UnitAlias::Alone,
    {
        UnitAlias::Alone
    }
}

/// Which units are counted.
#[derive(Debug, Clone, Copy, PartialEq, Eq, Structural)]
pub enum Completion {
    /// Complete units.
    Complete,
    /// Units that are being made.
    Ordered,
    /// Both.
    All,
}

impl Default for Completion {
    fn default() -> (r: Completion)
        ensures
            r == Completion::Complete,
    {
        Completion::Complete
    }
}

/// Steps of the game in one second, times ten.
pub const FRAMES_PER_SECOND_X10: u64 = 224;

/// What the bot knows of the game.
pub struct Bot {
    /// How many steps of the game pass between two steps of the bot.
    pub game_step: u32,
    /// Whether the bot left the game.
    pub game_left: bool,
    /// Race of the bot.
    pub race: Race,
    /// Race of the opponent, as far as known.
    pub enemy_race: Race,
    /// In-game id of the bot.
    pub player_id: u32,
    /// In-game id of the opponent.
    pub enemy_player_id: u32,
    /// Actions that wait to be sent.
    pub actions: Vec<Action>,
    /// Orders for units that wait to be batched into actions.
    pub commander: Commander,
    /// What is known of the map.
    pub game_info: GameInfo,
    /// The game's rules.
    pub game_data: GameData,
    /// What is known of the current step.
    pub state: GameState,
    /// The units, sorted into groups.
    pub units: AllUnits,
    /// Orders of the bot's units, counted by ability.
    pub orders: Counter<AbilityId>,
    /// Complete units of the bot, counted by type.
    pub current_units: Counter<UnitTypeId>,
    /// Structures of the opponent under construction, counted by type.
    pub enemies_ordered: Counter<UnitTypeId>,
    /// Complete units of the opponent, counted by type.
    pub enemies_current: Counter<UnitTypeId>,
    /// Tags of the opponent's units that were seen to be hallucinations.
    pub saved_hallucinations: TagSet,
    /// Time since the game began, in 4096ths of a second.
    pub time: u64,
    /// Minerals that the bot has.
    pub minerals: u32,
    /// Vespene gas that the bot has.
    pub vespene: u32,
    /// Supply used by the army.
    pub supply_army: u32,
    /// Supply used by workers.
    pub supply_workers: u32,
    /// Greatest supply that can be used.
    pub supply_cap: u32,
    /// Supply used.
    pub supply_used: u32,
    /// Supply left.
    pub supply_left: u32,
    /// Where the bot started.
    pub start_location: Point2,
    /// Where the opponent started.
    pub enemy_start: Point2,
    /// Centre of the bot's start location and the resources around it.
    pub start_center: Point2,
    /// Centre of the opponent's start location and the resources around it.
    pub enemy_start_center: Point2,
    /// Tags of the bot's tech labs.
    pub techlab_tags: TagSet,
    /// Tags of the bot's reactors.
    pub reactor_tags: TagSet,
    /// Places for bases, the best for the bot first.
    pub expansions: Vec<Expansion>,
    /// For each type of the bot's units the longest time between two shots
    /// that was seen, in 4096ths of a frame.
    pub max_cooldowns: Vec<(UnitTypeId, i32)>,
    /// Hits that each unit had at the observation before.
    pub last_units_hits: TagMap,
    /// Step of the game at which each unit was first seen.
    pub last_units_seen: TagMap,
    /// Cells that block the view without being part of a ramp.
    pub vision_blockers: Vec<(usize, usize)>,
    /// The ramps of the map.
    pub ramps: Ramps,
    /// Upgrades that the opponent is taken to have.
    pub enemy_upgrades: Vec<UpgradeId>,
    /// Tags of the units that the bot owned at the observation before.
    pub owned_tags: TagSet,
    /// Tags of the bot's structures under construction.
    pub under_construction: TagSet,
    /// Step of the game until which each unit is left alone.
    pub available_frames: TagMap,
    /// For the tags of the bot's units the abilities that the unit can use
    /// now, as the game told them.
    pub abilities_units: Vec<(u64, Vec<AbilityId>)>,
}

/// Whether a list of upgrades holds `id`.
pub open spec fn has_upgrade_in(upgrades: Seq<UpgradeId>, id: UpgradeId) -> bool {
    exists|i: int| 0 <= i < upgrades.len() && upgrades[i] == id
}

/// Checks if a list of upgrades holds `id`.
pub fn contains_upgrade(upgrades: &Vec<UpgradeId>, id: UpgradeId) -> (r: bool)
    ensures
        r == has_upgrade_in(upgrades@, id),
{
    let mut i: usize = 0;
    while i < upgrades.len()
        invariant
            i <= upgrades.len(),
            forall|j: int| 0 <= j < i ==> upgrades[j] != id,
        decreases upgrades.len() - i,
    {
        if upgrades[i] == id {
            return true;
        }
        i += 1;
    }
    false
}

/// The type of unit that a unit of type `unit` is made from and that is
/// paid for with it; `None` for a type that is made from nothing.
pub open spec fn made_from(unit: UnitTypeId) -> Option<UnitTypeId> {
    match unit {
        UnitTypeId::Baneling | UnitTypeId::BanelingBurrowed => Some(UnitTypeId::Zergling),
        UnitTypeId::Ravager | UnitTypeId::RavagerBurrowed => Some(UnitTypeId::Roach),
        UnitTypeId::LurkerMP | UnitTypeId::LurkerMPBurrowed => Some(UnitTypeId::Hydralisk),
        UnitTypeId::Overseer | UnitTypeId::OverseerSiegeMode => Some(UnitTypeId::Overlord),
        UnitTypeId::BroodLord => Some(UnitTypeId::Corruptor),
        UnitTypeId::OrbitalCommand | UnitTypeId::OrbitalCommandFlying
        | UnitTypeId::PlanetaryFortress => Some(UnitTypeId::CommandCenter),
        UnitTypeId::Lair => Some(UnitTypeId::Hatchery),
        UnitTypeId::Hive => Some(UnitTypeId::Lair),
        UnitTypeId::GreaterSpire => Some(UnitTypeId::Spire),
        UnitTypeId::Hatchery | UnitTypeId::SpineCrawler | UnitTypeId::SporeCrawler
        | UnitTypeId::Extractor | UnitTypeId::SpawningPool | UnitTypeId::EvolutionChamber
        | UnitTypeId::RoachWarren | UnitTypeId::BanelingNest | UnitTypeId::HydraliskDen
        | UnitTypeId::LurkerDenMP | UnitTypeId::InfestationPit | UnitTypeId::Spire
        | UnitTypeId::NydusNetwork | UnitTypeId::UltraliskCavern => Some(UnitTypeId::Drone),
        _ => None,
    }
}

/// The difference of two numbers, or nothing where the second is greater.
pub open spec fn minus_u32(a: u32, b: u32) -> u32 {
    if a >= b {
        (a - b) as u32
    } else {
        0
    }
}

/// Twice a number, or the greatest number of the type where that is less.
pub open spec fn twice_u32(a: u32) -> u32 {
    if 2 * a > u32::MAX {
        u32::MAX
    } else {
        (2 * a) as u32
    }
}

/// Twice a number, kept within the range of the type.
pub open spec fn twice_i32(a: i32) -> i32 {
    if 2 * a > i32::MAX {
        i32::MAX
    } else if 2 * a < i32::MIN {
        i32::MIN
    } else {
        (2 * a) as i32
    }
}

/// Price that the rules give for a type of unit; nothing for a type they do
/// not know.
pub open spec fn api_cost(data: &GameData, unit: UnitTypeId) -> Cost {
    match data.spec_unit(unit) {
        Some(d) => Cost {
            minerals: d.mineral_cost,
            vespene: d.vespene_cost,
            supply: d.food_required,
            time: d.build_time,
        },
        None => Cost { minerals: 0, vespene: 0, supply: 0, time: 0 },
    }
}

/// What a unit of a type costs to make.
///
/// The rules give the price of a pair of zerglings by half and that of an
/// overlord with transport wrongly, and they count into the price of a unit
/// that is made from another what that other cost.
pub open spec fn unit_cost(data: &GameData, unit: UnitTypeId) -> Cost {
    let cost = api_cost(data, unit);
    match unit {
        UnitTypeId::OverlordTransport => Cost { minerals: 25, vespene: 25, ..cost },
        UnitTypeId::Zergling | UnitTypeId::ZerglingBurrowed => Cost {
            minerals: twice_u32(cost.minerals),
            supply: twice_i32(cost.supply),
            ..cost
        },
        _ => match made_from(unit) {
            Some(pred) => {
                let p = api_cost(data, pred);
                Cost {
                    minerals: minus_u32(cost.minerals, p.minerals),
                    vespene: minus_u32(cost.vespene, p.vespene),
                    supply: if cost.supply - p.supply > 0 {
                        if cost.supply - p.supply > i32::MAX {
                            i32::MAX
                        } else {
                            (cost.supply - p.supply) as i32
                        }
                    } else {
                        0
                    },
                    ..cost
                }
            },
            None => cost,
        },
    }
}

/// Whole supply that a price takes.
pub open spec fn whole_supply(supply: i32) -> u32 {
    if supply <= 0 {
        0
    } else {
        (supply / SCALE) as u32
    }
}

/// Height of a cell in the game's space, in 4096ths, from the height that the
/// map gives: the heights from `0` to `255` stand for those from `-16` to `16`.
pub open spec fn z_height(h: u8) -> int {
    (h as int) * 32 * SCALE / 255 - 16 * SCALE
}

impl Bot {
    /// Whether the bot's collections are such as its methods keep.
    pub open spec fn wf(&self) -> bool {
        &&& self.units.wf()
        &&& self.commander.wf()
        &&& forall|i: int| 0 <= i < self.expansions@.len() ==> (#[trigger] self.expansions@[i]).wf()
    }

    /// Sets how many steps of the game pass between two steps of the bot.
    pub fn set_game_step(&mut self, val: u32)
        ensures
            *final(self) == (Bot { game_step: val, ..*old(self) }),
    {
        self.game_step = val;
    }

    /// How many steps of the game pass between two steps of the bot.
    pub fn game_step(&self) -> (r: u32)
        ensures
            r == self.game_step,
    {
        self.game_step
    }

    /// Leaves the game at the end of the step.
    pub fn leave(&mut self)
        ensures
            *final(self) == (Bot { game_left: true, ..*old(self) }),
    {
        self.game_left = true;
    }

    /// Moves the orders that wait in the queue to the actions, one action for
    /// each distinct order, behind the actions that wait already.
    pub fn get_actions(&mut self)
        requires
            old(self).commander.wf(),
        ensures
            final(self).commander.wf(),
            final(self).commander.commands() == Pending::empty(),
            final(self).commander.autocast() == Pending::empty(),
            final(self).actions@.len() == old(self).actions@.len() + old(
                self,
            ).commander.commands().len() + old(self).commander.autocast().len(),
            forall|i: int|
                0 <= i < old(self).actions@.len() ==> final(self).actions@[i] == old(
                    self,
                ).actions@[i],
            forall|i: int|
                0 <= i < old(self).commander.commands().len() ==> (#[trigger] final(self).actions@[old(
                    self,
                ).actions@.len() + i])@ == crate::action::ActionView::UnitCommand(
                    old(self).commander.commands()[i].0.ability,
                    old(self).commander.commands()[i].0.target,
                    old(self).commander.commands()[i].1,
                    old(self).commander.commands()[i].0.queue,
                ),
            forall|i: int|
                0 <= i < old(self).commander.autocast().len() ==> (#[trigger] final(self).actions@[old(
                    self,
                ).actions@.len() + old(self).commander.commands().len() + i])@
                    == crate::action::ActionView::ToggleAutocast(
                    old(self).commander.autocast()[i].0.ability,
                    old(self).commander.autocast()[i].1,
                ),
            *final(self) == (Bot {
                actions: final(self).actions,
                commander: final(self).commander,
                ..*old(self)
            }),
    {
        let ghost cmds = self.commander.commands();
        let ghost autos = self.commander.autocast();
        let mut batch = self.commander.flush();
        let ghost given = self.actions@;
        let ghost flushed = batch@;
        self.actions.append(&mut batch);
        assert(self.actions@ =~= given + flushed);
        assert forall|i: int| 0 <= i < autos.len() implies (#[trigger] self.actions@[given.len()
            + cmds.len() + i])@ == crate::action::ActionView::ToggleAutocast(
            autos[i].0.ability,
            autos[i].1,
        ) by {
            assert(self.actions@[given.len() + cmds.len() + i] == flushed[cmds.len() + i]);
        }
        assert forall|i: int| 0 <= i < cmds.len() implies (#[trigger] self.actions@[given.len()
            + i])@ == crate::action::ActionView::UnitCommand(
            cmds[i].0.ability,
            cmds[i].0.target,
            cmds[i].1,
            cmds[i].0.queue,
        ) by {
            assert(self.actions@[given.len() + i] == flushed[i]);
        }
    }

    /// Forgets the actions that wait to be sent.
    pub fn clear_actions(&mut self)
        ensures
            final(self).actions@.len() == 0,
            *final(self) == (Bot { actions: final(self).actions, ..*old(self) }),
    {
        self.actions.clear();
    }

    /// Moves the camera to a position.
    pub fn move_camera(&mut self, pos: Point3)
        ensures
            final(self).actions@.len() == old(self).actions@.len() + 1,
            final(self).actions@.last()@ == crate::action::ActionView::CameraMove(pos),
            final(self).actions@.drop_last() == old(self).actions@,
            *final(self) == (Bot { actions: final(self).actions, ..*old(self) }),
    {
        self.actions.push(Action::CameraMove(pos));
        assert(self.actions@.drop_last() =~= old(self).actions@);
    }

    /// Sends a message to the game chat.
    pub fn chat(&mut self, message: String)
        ensures
            final(self).actions@.len() == old(self).actions@.len() + 1,
            final(self).actions@.last()@ == crate::action::ActionView::Chat(message@, false),
            final(self).actions@.drop_last() == old(self).actions@,
            *final(self) == (Bot { actions: final(self).actions, ..*old(self) }),
    {
        self.actions.push(Action::Chat(message, false));
        assert(self.actions@.drop_last() =~= old(self).actions@);
    }

    /// Sends a message to the game chat that only allies read.
    pub fn chat_ally(&mut self, message: String)
        ensures
            final(self).actions@.len() == old(self).actions@.len() + 1,
            final(self).actions@.last()@ == crate::action::ActionView::Chat(message@, true),
            final(self).actions@.drop_last() == old(self).actions@,
            *final(self) == (Bot { actions: final(self).actions, ..*old(self) }),
    {
        self.actions.push(Action::Chat(message, true));
        assert(self.actions@.drop_last() =~= old(self).actions@);
    }

    /// Price that the rules give for a type of unit.
    pub fn get_unit_api_cost(&self, unit: UnitTypeId) -> (c: Cost)
        ensures
            c == api_cost(&self.game_data, unit),
    {
        match self.game_data.unit(unit) {
            Some(d) => d.cost(),
            None => Cost { minerals: 0, vespene: 0, supply: 0, time: 0 },
        }
    }

    /// What a unit of a type costs to make; see [`unit_cost`].
    pub fn get_unit_cost(&self, unit: UnitTypeId) -> (c: Cost)
        ensures
            c == unit_cost(&self.game_data, unit),
    {
        let mut cost = self.get_unit_api_cost(unit);
        match unit {
            UnitTypeId::OverlordTransport => {
                cost.minerals = 25;
                cost.vespene = 25;
            },
            UnitTypeId::Zergling | UnitTypeId::ZerglingBurrowed => {
                cost.minerals = cost.minerals.saturating_add(cost.minerals);
                cost.supply = if cost.supply > i32::MAX / 2 {
                    i32::MAX
                } else if cost.supply < i32::MIN / 2 {
                    i32::MIN
                } else {
                    cost.supply * 2
                };
            },
            _ => {
                let pred = match unit {
                    UnitTypeId::Baneling | UnitTypeId::BanelingBurrowed => UnitTypeId::Zergling,
                    UnitTypeId::Ravager | UnitTypeId::RavagerBurrowed => UnitTypeId::Roach,
                    UnitTypeId::LurkerMP | UnitTypeId::LurkerMPBurrowed => UnitTypeId::Hydralisk,
                    UnitTypeId::Overseer | UnitTypeId::OverseerSiegeMode => UnitTypeId::Overlord,
                    UnitTypeId::BroodLord => UnitTypeId::Corruptor,
                    UnitTypeId::OrbitalCommand | UnitTypeId::OrbitalCommandFlying
                    | UnitTypeId::PlanetaryFortress => UnitTypeId::CommandCenter,
                    UnitTypeId::Lair => UnitTypeId::Hatchery,
                    UnitTypeId::Hive => UnitTypeId::Lair,
                    UnitTypeId::GreaterSpire => UnitTypeId::Spire,
                    UnitTypeId::Hatchery | UnitTypeId::SpineCrawler | UnitTypeId::SporeCrawler
                    | UnitTypeId::Extractor | UnitTypeId::SpawningPool
                    | UnitTypeId::EvolutionChamber | UnitTypeId::RoachWarren
                    | UnitTypeId::BanelingNest | UnitTypeId::HydraliskDen
                    | UnitTypeId::LurkerDenMP | UnitTypeId::InfestationPit | UnitTypeId::Spire
                    | UnitTypeId::NydusNetwork | UnitTypeId::UltraliskCavern => UnitTypeId::Drone,
                    _ => {
                        return cost;
                    },
                };
                let p = self.get_unit_api_cost(pred);
                cost.minerals = cost.minerals.saturating_sub(p.minerals);
                cost.vespene = cost.vespene.saturating_sub(p.vespene);
                let left: i64 = cost.supply as i64 - p.supply as i64;
                cost.supply = if left > 0 {
                    if left > i32::MAX as i64 {
                        i32::MAX
                    } else {
                        left as i32
                    }
                } else {
                    0
                };
            },
        }
        cost
    }

    /// Checks if the bot has the minerals and the gas to make a unit of a
    /// type, and with `check_supply` the supply too.
    pub fn can_afford(&self, unit: UnitTypeId, check_supply: bool) -> (r: bool)
        ensures
            r == ({
                let cost = unit_cost(&self.game_data, unit);
                self.minerals >= cost.minerals && self.vespene >= cost.vespene && (!check_supply
                    || self.supply_left * SCALE >= cost.supply)
            }),
    {
        let cost = self.get_unit_cost(unit);
        if self.minerals < cost.minerals || self.vespene < cost.vespene {
            return false;
        }
        if check_supply && (self.supply_left as i64) * (SCALE as i64) < cost.supply as i64 {
            return false;
        }
        true
    }

    /// Price of an upgrade; nothing for one that the rules do not know.
    pub fn get_upgrade_cost(&self, upgrade: UpgradeId) -> (c: Cost)
        ensures
            c == match self.game_data.spec_upgrade(upgrade) {
                Some(d) => Cost {
                    minerals: d.mineral_cost,
                    vespene: d.vespene_cost,
                    supply: 0,
                    time: d.research_time,
                },
                None => Cost { minerals: 0, vespene: 0, supply: 0, time: 0 },
            },
    {
        match self.game_data.upgrade(upgrade) {
            Some(d) => d.cost(),
            None => Cost { minerals: 0, vespene: 0, supply: 0, time: 0 },
        }
    }

    /// Checks if the bot has the minerals and the gas for an upgrade.
    pub fn can_afford_upgrade(&self, upgrade: UpgradeId) -> (r: bool)
        ensures
            r == match self.game_data.spec_upgrade(upgrade) {
                Some(d) => self.minerals >= d.mineral_cost && self.vespene >= d.vespene_cost,
                None => true,
            },
    {
        let cost = self.get_upgrade_cost(upgrade);
        self.minerals >= cost.minerals && self.vespene >= cost.vespene
    }

    /// Takes the price of a unit of a type from what the bot has; with
    /// `subtract_supply` the whole supply it takes too. Nothing falls below
    /// zero.
    pub fn subtract_resources(&mut self, unit: UnitTypeId, subtract_supply: bool)
        ensures
            ({
                let cost = unit_cost(&old(self).game_data, unit);
                let supply = whole_supply(cost.supply);
                *final(self) == (Bot {
                    minerals: minus_u32(old(self).minerals, cost.minerals),
                    vespene: minus_u32(old(self).vespene, cost.vespene),
                    supply_used: if subtract_supply {
                        if old(self).supply_used + supply > u32::MAX {
                            u32::MAX
                        } else {
                            (old(self).supply_used + supply) as u32
                        }
                    } else {
                        old(self).supply_used
                    },
                    supply_left: if subtract_supply {
                        minus_u32(old(self).supply_left, supply)
                    } else {
                        old(self).supply_left
                    },
                    ..*old(self)
                })
            }),
    {
        let cost = self.get_unit_cost(unit);
        self.minerals = self.minerals.saturating_sub(cost.minerals);
        self.vespene = self.vespene.saturating_sub(cost.vespene);
        if subtract_supply {
            let supply_cost: u32 = if cost.supply <= 0 {
                0
            } else {
                (cost.supply / SCALE) as u32
            };
            self.supply_used = self.supply_used.saturating_add(supply_cost);
            self.supply_left = self.supply_left.saturating_sub(supply_cost);
        }
    }

    /// Takes the price of an upgrade from what the bot has. Nothing falls
    /// below zero.
    pub fn subtract_upgrade_cost(&mut self, upgrade: UpgradeId)
        ensures
            ({
                let (minerals, vespene) = match old(self).game_data.spec_upgrade(upgrade) {
                    Some(d) => (d.mineral_cost, d.vespene_cost),
                    None => (0u32, 0u32),
                };
                *final(self) == (Bot {
                    minerals: minus_u32(old(self).minerals, minerals),
                    vespene: minus_u32(old(self).vespene, vespene),
                    ..*old(self)
                })
            }),
    {
        let cost = self.get_upgrade_cost(upgrade);
        self.minerals = self.minerals.saturating_sub(cost.minerals);
        self.vespene = self.vespene.saturating_sub(cost.vespene);
    }

    /// Checks if the bot has an upgrade.
    pub fn has_upgrade(&self, upgrade: UpgradeId) -> (r: bool)
        ensures
            r == has_upgrade_in(self.state.observation.raw.upgrades@, upgrade),
    {
        contains_upgrade(&self.state.observation.raw.upgrades, upgrade)
    }

    /// The upgrades that the bot has.
    pub fn upgrades(&self) -> (r: &Vec<UpgradeId>)
        ensures
            r@ == self.state.observation.raw.upgrades@,
    {
        &self.state.observation.raw.upgrades
    }

    /// The upgrades that the opponent is taken to have.
    pub fn enemy_upgrades(&self) -> (r: &Vec<UpgradeId>)
        ensures
            r@ == self.enemy_upgrades@,
    {
        &self.enemy_upgrades
    }

    /// Checks if the opponent is taken to have an upgrade.
    pub fn enemy_has_upgrade(&self, upgrade: UpgradeId) -> (r: bool)
        ensures
            r == has_upgrade_in(self.enemy_upgrades@, upgrade),
    {
        contains_upgrade(&self.enemy_upgrades, upgrade)
    }

    /// Checks if an upgrade is being researched: the rules know it and one of
    /// the bot's units has the order to research it.
    pub fn is_ordered_upgrade(&self, upgrade: UpgradeId) -> (r: bool)
        ensures
            r == match self.game_data.spec_upgrade(upgrade) {
                Some(d) => self.orders.count(d.ability) > 0,
                None => false,
            },
    {
        match self.game_data.upgrade(upgrade) {
            Some(d) => self.orders.get(d.ability) > 0,
            None => false,
        }
    }

    /// Height of the ground of a cell; `0` off the map.
    pub fn get_height(&self, pos: (usize, usize)) -> (h: u8)
        ensures
            h == crate::ramp::height(&self.game_info.terrain_height, pos.0 as int, pos.1 as int),
    {
        match self.game_info.terrain_height.get(pos) {
            Some(h) => h,
            None => 0,
        }
    }

    /// Height of a cell in the game's space, in 4096ths; `0` off the map.
    pub fn get_z_height(&self, pos: (usize, usize)) -> (z: i32)
        ensures
            z == match self.game_info.terrain_height.at(pos.0 as int, pos.1 as int) {
                Some(h) => z_height(h),
                None => 0,
            },
    {
        match self.game_info.terrain_height.get(pos) {
            Some(h) => ((h as i32) * 32 * SCALE / 255) - 16 * SCALE,
            None => 0,
        }
    }

    /// How much the ground of two cells differs in height.
    pub fn get_height_diff(&self, here: (usize, usize), there: (usize, usize)) -> (d: u8)
        ensures
            ({
                let a = crate::ramp::height(&self.game_info.terrain_height, here.0 as int, here.1 as int);
                let b = crate::ramp::height(&self.game_info.terrain_height, there.0 as int, there.1 as int);
                d == if a >= b {
                    a - b
                } else {
                    b - a
                }
            }),
    {
        let a = self.get_height(here);
        let b = self.get_height(there);
        if a >= b {
            a - b
        } else {
            b - a
        }
    }

    /// Checks if something can be built on a cell.
    pub fn is_placeable(&self, pos: (usize, usize)) -> (r: bool)
        ensures
            r == crate::ramp::flag(&self.game_info.placement_grid, pos.0 as int, pos.1 as int),
    {
        match self.game_info.placement_grid.get(pos) {
            Some(b) => b,
            None => false,
        }
    }

    /// Checks if ground units can walk on a cell.
    pub fn is_pathable(&self, pos: (usize, usize)) -> (r: bool)
        ensures
            r == crate::ramp::flag(&self.game_info.pathing_grid, pos.0 as int, pos.1 as int),
    {
        match self.game_info.pathing_grid.get(pos) {
            Some(b) => b,
            None => false,
        }
    }

    /// Checks if a cell was never seen. A cell off the map counts as never
    /// seen.
    pub fn is_hidden(&self, pos: (usize, usize)) -> (r: bool)
        ensures
            r == match self.state.observation.raw.visibility.at(pos.0 as int, pos.1 as int) {
                Some(v) => v == Visibility::Hidden,
                None => true,
            },
    {
        match self.state.observation.raw.visibility.get(pos) {
            Some(v) => v.is_hidden(),
            None => true,
        }
    }

    /// Checks if a cell was seen before and is not seen now. A cell off the
    /// map counts as such.
    pub fn is_fogged(&self, pos: (usize, usize)) -> (r: bool)
        ensures
            r == match self.state.observation.raw.visibility.at(pos.0 as int, pos.1 as int) {
                Some(v) => v == Visibility::Fogged,
                None => true,
            },
    {
        match self.state.observation.raw.visibility.get(pos) {
            Some(v) => v.is_fogged(),
            None => true,
        }
    }

    /// Checks if a cell is seen now.
    pub fn is_visible(&self, pos: (usize, usize)) -> (r: bool)
        ensures
            r == (self.state.observation.raw.visibility.at(pos.0 as int, pos.1 as int) == Some(
                Visibility::Visible,
            )),
    {
        match self.state.observation.raw.visibility.get(pos) {
            Some(v) => v.is_visible(),
            None => false,
        }
    }

    /// Checks if not even the terrain of a cell is shown. A cell off the map
    /// counts as such.
    pub fn is_full_hidden(&self, pos: (usize, usize)) -> (r: bool)
        ensures
            r == match self.state.observation.raw.visibility.at(pos.0 as int, pos.1 as int) {
                Some(v) => v == Visibility::FullHidden,
                None => true,
            },
    {
        match self.state.observation.raw.visibility.get(pos) {
            Some(v) => v.is_full_hidden(),
            None => true,
        }
    }

    /// Checks if a cell is seen now or was seen before.
    pub fn is_explored(&self, pos: (usize, usize)) -> (r: bool)
        ensures
            r == match self.state.observation.raw.visibility.at(pos.0 as int, pos.1 as int) {
                Some(v) => v == Visibility::Visible || v == Visibility::Fogged,
                None => false,
            },
    {
        match self.state.observation.raw.visibility.get(pos) {
            Some(v) => v.is_explored(),
            None => false,
        }
    }

    /// Checks if a cell is covered with creep.
    pub fn has_creep(&self, pos: (usize, usize)) -> (r: bool)
        ensures
            r == crate::ramp::flag(&self.state.observation.raw.creep, pos.0 as int, pos.1 as int),
    {
        match self.state.observation.raw.creep.get(pos) {
            Some(b) => b,
            None => false,
        }
    }

    /// The places in `expansions` of the bases that `alliance` holds, in
    /// their order.
    pub fn expansions_of(&self, alliance: Alliance) -> (r: Vec<usize>)
        ensures
            forall|k: int| 0 <= k < r.len() ==> (#[trigger] r[k]) < self.expansions@.len()
                && self.expansions@[r[k] as int].alliance == alliance,
            forall|i: int|
                0 <= i < self.expansions@.len() && (#[trigger] self.expansions@[i]).alliance
                    == alliance ==> r@.contains(i as usize),
            forall|a: int, b: int| 0 <= a < b < r.len() ==> r[a] < r[b],
    {
        let mut r: Vec<usize> = Vec::new();
        let mut i: usize = 0;
        while i < self.expansions.len()
            invariant
                i <= self.expansions.len(),
                forall|k: int| 0 <= k < r.len() ==> (#[trigger] r[k]) < i && self.expansions@[r[k] as int].alliance
                    == alliance,
                forall|j: int|
                    0 <= j < i && (#[trigger] self.expansions@[j]).alliance == alliance
                        ==> r@.contains(j as usize),
                forall|a: int, b: int| 0 <= a < b < r.len() ==> r[a] < r[b],
            decreases self.expansions.len() - i,
        {
            if self.expansions[i].alliance == alliance {
                let ghost before = r@;
                r.push(i);
                assert forall|j: int|
                    0 <= j < i + 1 && (#[trigger] self.expansions@[j]).alliance
                        == alliance implies r@.contains(j as usize) by {
                    if j < i {
                        let k = choose|k: int| 0 <= k < before.len() && before[k] == j as usize;
                        assert(r@[k] == j as usize);
                    } else {
                        assert(r@[before.len() as int] == j as usize);
                    }
                }
            }
            i += 1;
        }
        r
    }

    /// The places in `expansions` of the bases that the bot holds.
    pub fn owned_expansions(&self) -> (r: Vec<usize>)
        ensures
            forall|k: int| 0 <= k < r.len() ==> (#[trigger] r[k]) < self.expansions@.len()
                && self.expansions@[r[k] as int].alliance == Alliance::Own,
            forall|i: int|
                0 <= i < self.expansions@.len() && (#[trigger] self.expansions@[i]).alliance
                    == Alliance::Own ==> r@.contains(i as usize),
    {
        self.expansions_of(Alliance::Own)
    }

    /// The places in `expansions` of the bases that the opponent holds.
    pub fn enemy_expansions(&self) -> (r: Vec<usize>)
        ensures
            forall|k: int| 0 <= k < r.len() ==> (#[trigger] r[k]) < self.expansions@.len()
                && self.expansions@[r[k] as int].alliance == Alliance::Enemy,
            forall|i: int|
                0 <= i < self.expansions@.len() && (#[trigger] self.expansions@[i]).alliance
                    == Alliance::Enemy ==> r@.contains(i as usize),
    {
        self.expansions_of(Alliance::Enemy)
    }

    /// The places in `expansions` of the bases that nobody holds.
    pub fn free_expansions(&self) -> (r: Vec<usize>)
        ensures
            forall|k: int| 0 <= k < r.len() ==> (#[trigger] r[k]) < self.expansions@.len()
                && self.expansions@[r[k] as int].alliance == Alliance::Neutral,
            forall|i: int|
                0 <= i < self.expansions@.len() && (#[trigger] self.expansions@[i]).alliance
                    == Alliance::Neutral ==> r@.contains(i as usize),
    {
        self.expansions_of(Alliance::Neutral)
    }

    /// The place in `expansions` of the best base for the bot that nobody
    /// holds: the first such base of the list. `None` where every base is
    /// held.
    pub fn get_expansion(&self) -> (r: Option<usize>)
        ensures
            match r {
                Some(k) => k < self.expansions@.len() && self.expansions@[k as int].alliance
                    == Alliance::Neutral && forall|j: int|
                    0 <= j < k ==> (#[trigger] self.expansions@[j]).alliance != Alliance::Neutral,
                None => forall|j: int|
                    0 <= j < self.expansions@.len() ==> (#[trigger] self.expansions@[j]).alliance
                        != Alliance::Neutral,
            },
    {
        let mut i: usize = 0;
        while i < self.expansions.len()
            invariant
                i <= self.expansions.len(),
                forall|j: int|
                    0 <= j < i ==> (#[trigger] self.expansions@[j]).alliance != Alliance::Neutral,
            decreases self.expansions.len() - i,
        {
            if self.expansions[i].alliance == Alliance::Neutral {
                return Some(i);
            }
            i += 1;
        }
        None
    }

    /// The place in `expansions` of the base that nobody holds and that is
    /// nearest to the opponent's start, given for each base the length of the
    /// path from there: the first of the free bases with the shortest path.
    /// A base without a path, or for which `paths` has no entry, is out of
    /// reach. `None` where no free base can be reached.
    pub fn get_enemy_expansion(&self, paths: &Vec<Option<i32>>) -> (r: Option<usize>)
        ensures
            match r {
                Some(k) => self.is_free_with_path(paths@, k as int) && forall|j: int|
                    #[trigger] self.is_free_with_path(paths@, j) ==> paths@[k as int].unwrap()
                        < paths@[j].unwrap() || (paths@[k as int].unwrap() == paths@[j].unwrap() && k
                        <= j),
                None => forall|j: int| !#[trigger] self.is_free_with_path(paths@, j),
            },
    {
        let mut best: Option<(usize, i32)> = None;
        let mut i: usize = 0;
        while i < self.expansions.len()
            invariant
                i <= self.expansions.len(),
                match best {
                    Some((k, d)) => k < i && self.is_free_with_path(paths@, k as int) && d
                        == paths@[k as int].unwrap() && forall|j: int|
                        j < i && #[trigger] self.is_free_with_path(paths@, j) ==> d
                            < paths@[j].unwrap() || (d == paths@[j].unwrap() && k <= j),
                    None => forall|j: int| j < i ==> !#[trigger] self.is_free_with_path(paths@, j),
                },
            decreases self.expansions.len() - i,
        {
            if self.expansions[i].alliance == Alliance::Neutral && i < paths.len() {
                match paths[i] {
                    Some(d) => {
                        let better = match best {
                            Some((_, least)) => d < least,
                            None => true,
                        };
                        if better {
                            best = Some((i, d));
                        }
                    },
                    None => {},
                }
            }
            i += 1;
        }
        match best {
            Some((k, _)) => Some(k),
            None => None,
        }
    }

    /// Whether nobody holds the base at place `k` and a path leads to it.
    pub open spec fn is_free_with_path(&self, paths: Seq<Option<i32>>, k: int) -> bool {
        0 <= k < self.expansions@.len() && k < paths.len() && self.expansions@[k].alliance
            == Alliance::Neutral && paths[k].is_some()
    }
}

/// Whether `post` is the bot `pre` after it took in the units of an
/// observation.
///
/// Units of the opponent that were seen to be hallucinations are marked as
/// such. The units are sorted into groups. What the bot remembers of the
/// opponent is brought up to date. Units of the bot that the opponent
/// detects are revealed. The bot notes its add-ons, the longest time between
/// two shots of each type of its units, the hits and the first sighting of
/// the units of the observation before, who holds each base, and how many
/// units of each type the opponent has. Nothing else changes.
pub open spec fn took_units(pre: Bot, post: Bot, all_units: Seq<UnitView>) -> bool {
    let data = &pre.game_data;
    let raw = pre.state.observation.raw;
    let given = all_marked(all_units, pre.saved_hallucinations@);
    let enemy = player_groups(given, data, Alliance::Enemy);
    let own = player_groups(given, data, Alliance::Own);
    &&& post.units.cached@ == remembered(
        pre.units.cached@,
        enemy,
        pre.enemy_race == Race::Terran,
        scene_of(enemy, own.all, raw.effects@, pre.enemy_race == Race::Zerg),
        &raw.visibility,
        data,
    )
    &&& post.units.all@ == all_exposed(given, post.units.cached.all@, raw.effects@)
    &&& sorted(&post.units, data)
    &&& post.saved_hallucinations@ == pre.saved_hallucinations@.union(
        hallucination_tags(given),
    )
    &&& post.techlab_tags@ == addon_tags(post.units.all@, data, true)
    &&& post.reactor_tags@ == addon_tags(post.units.all@, data, false)
    &&& forall|t: UnitTypeId|
        #[trigger] cooldown_in(post.max_cooldowns@, t) == peak(
            post.units.all@,
            t,
            cooldown_in(pre.max_cooldowns@, t),
        )
    &&& post.last_units_hits@ == hits_of(pre.units.all@)
    &&& post.last_units_seen@ == seen_of(
        pre.units.all@,
        pre.last_units_seen@,
        pre.state.observation.game_loop,
    )
    &&& post.expansions@.len() == pre.expansions@.len()
    &&& forall|k: int|
        0 <= k < pre.expansions@.len() ==> {
            let e = #[trigger] post.expansions@[k];
            let o = pre.expansions@[k];
            let h = holder(
                locations(pre.expansions@),
                k,
                post.units.all@,
                data,
                pre.enemy_start,
                pre.enemy_start_hidden(),
            );
            &&& e.loc == o.loc
            &&& e.center == o.center
            &&& e.minerals == o.minerals
            &&& e.geysers == o.geysers
            &&& e.alliance == h.0
            &&& e.base == h.1
        }
    &&& forall|t: UnitTypeId|
        #[trigger] post.enemies_current.count(t) == enemy_current(
            post.units.cached.all@,
            data,
            t,
        )
    &&& forall|t: UnitTypeId|
        #[trigger] post.enemies_ordered.count(t) == enemy_ordered(
            post.units.cached.all@,
            data,
            t,
        )
    &&& post == (Bot {
        units: post.units,
        saved_hallucinations: post.saved_hallucinations,
        techlab_tags: post.techlab_tags,
        reactor_tags: post.reactor_tags,
        max_cooldowns: post.max_cooldowns,
        last_units_hits: post.last_units_hits,
        last_units_seen: post.last_units_seen,
        expansions: post.expansions,
        enemies_current: post.enemies_current,
        enemies_ordered: post.enemies_ordered,
        ..pre
    })
}

/// Time at the step `game_loop` of the game, in 4096ths of a second.
pub open spec fn time_at(game_loop: u32) -> int {
    game_loop * SCALE * 10 / (FRAMES_PER_SECOND_X10 as int)
}

impl Bot {
    /// Whether the cell of the opponent's start location was never seen.
    pub open spec fn enemy_start_hidden(&self) -> bool {
        match self.state.observation.raw.visibility.at(
            cell_of(self.enemy_start.x as int),
            cell_of(self.enemy_start.y as int),
        ) {
            Some(v) => v == Visibility::Hidden,
            None => true,
        }
    }

    /// Takes from the observation what the bot has, and counts its units and
    /// orders.
    pub fn prepare_step(&mut self)
        ensures
            ({
                let common = old(self).state.observation.common;
                *final(self) == (Bot {
                    time: time_at(old(self).state.observation.game_loop) as u64,
                    minerals: common.minerals,
                    vespene: common.vespene,
                    supply_army: common.food_army,
                    supply_workers: common.food_workers,
                    supply_cap: common.food_cap,
                    supply_used: common.food_used,
                    supply_left: minus_u32(common.food_cap, common.food_used),
                    current_units: final(self).current_units,
                    orders: final(self).orders,
                    ..*old(self)
                })
            }),
            forall|t: UnitTypeId|
                #[trigger] final(self).current_units.count(t) == ready_count(old(self).units.my.all@, t),
            forall|a: AbilityId|
                #[trigger] final(self).orders.count(a) == order_count(
                    old(self).units.my.all@,
                    &old(self).game_data,
                    a,
                ),
    {
        let game_loop = self.state.observation.game_loop;
        self.time = (game_loop as u64) * (SCALE as u64) * 10 / FRAMES_PER_SECOND_X10;
        let common = self.state.observation.common;
        self.minerals = common.minerals;
        self.vespene = common.vespene;
        self.supply_army = common.food_army;
        self.supply_workers = common.food_workers;
        self.supply_cap = common.food_cap;
        self.supply_used = common.food_used;
        self.supply_left = common.food_cap.saturating_sub(common.food_used);
        let (current, orders) = count_own(&self.units.my.all, &self.game_data);
        self.current_units = current;
        self.orders = orders;
    }

    /// Takes in the units of an observation; see [`took_units`].
    pub fn update_units(&mut self, all_units: Units)
        requires
            old(self).wf(),
            all_units.wf(),
        ensures
            final(self).wf(),
            took_units(*old(self), *final(self), all_units@),
    {
        let game_loop = self.state.observation.game_loop;
        self.last_units_hits = remember_hits(&self.units.all);
        self.last_units_seen = remember_seen(&self.units.all, &self.last_units_seen, game_loop);
        let given = mark_hallucinations(&all_units, &self.saved_hallucinations);
        note_hallucinations(&mut self.saved_hallucinations, &given);
        let enemy = sort_player(&given, &self.game_data, Alliance::Enemy);
        let watchers = pick_player(&given, &self.game_data, Alliance::Own, PlayerGroup::All);
        let mut cached = PlayerUnits::new();
        std::mem::swap(&mut cached, &mut self.units.cached);
        update_cache(
            &mut cached,
            &enemy,
            &watchers,
            &self.state.observation.raw.effects,
            self.enemy_race.is_terran(),
            self.enemy_race.is_zerg(),
            &self.state.observation.raw.visibility,
            &self.game_data,
        );
        let exposed = expose_own(&given, &cached.all, &self.state.observation.raw.effects);
        let units = classify(exposed, cached, &self.game_data);
        self.techlab_tags = find_addons(&units.all, &self.game_data, true);
        self.reactor_tags = find_addons(&units.all, &self.game_data, false);
        raise_cooldowns(&mut self.max_cooldowns, &units.all);
        let hidden = self.is_hidden(self.enemy_start.cell());
        refresh_occupancy(
            &mut self.expansions,
            &units.all,
            &self.game_data,
            self.enemy_start,
            hidden,
        );
        let (current, ordered) = count_enemies(&units.cached.all, &self.game_data);
        self.enemies_current = current;
        self.enemies_ordered = ordered;
        self.units = units;
    }
}

/// The first of the units whose type has a known race, and that race.
pub open spec fn first_race(units: Seq<UnitView>, data: &GameData) -> Option<Race>
    decreases units.len(),
{
    if units.len() == 0 {
        None
    } else if units[0].race(data) != Race::Random {
        Some(units[0].race(data))
    } else {
        first_race(units.skip(1), data)
    }
}

/// Whether `post` is the bot `pre` after it took in the deaths of the units
/// with the tags `dead`, which gave rise to `events`. The bot notes the
/// tags, tells whose each dead unit was and forgets it. Nothing else changes.
pub open spec fn noted_dead(pre: Bot, post: Bot, dead: Seq<u64>, events: Seq<Event>) -> bool {
    let terran = pre.enemy_race == Race::Terran;
    &&& events == death_events(dead, pre.known(), terran)
    &&& post.known() == after_deaths(dead, pre.known(), terran)
    &&& post.state.observation.raw.dead_units@ == dead
    &&& same_bases(post.expansions@, pre.expansions@)
    &&& post == (Bot {
        owned_tags: post.owned_tags,
        under_construction: post.under_construction,
        available_frames: post.available_frames,
        last_units_hits: post.last_units_hits,
        last_units_seen: post.last_units_seen,
        saved_hallucinations: post.saved_hallucinations,
        expansions: post.expansions,
        units: AllUnits { cached: post.units.cached, ..pre.units },
        state: GameState {
            observation: crate::game_state::Observation {
                raw: crate::game_state::RawData {
                    dead_units: post.state.observation.raw.dead_units,
                    ..pre.state.observation.raw
                },
                ..pre.state.observation
            },
            ..pre.state
        },
        ..pre
    })
}

/// Whether `post` is the bot `pre` after it compared its units with the tags
/// it owned, which gave rise to `events`. Nothing but the tags owned and
/// under construction changes.
pub open spec fn noted_lifecycle(pre: Bot, post: Bot, events: Seq<Event>) -> bool {
    let units = pre.units.my.all@;
    &&& events == lifecycle(units, &pre.game_data, pre.owned_tags@, pre.under_construction@)
    &&& post.owned_tags@ == next_owned(units, pre.owned_tags@)
    &&& post.under_construction@ == next_building(
        units,
        &pre.game_data,
        pre.owned_tags@,
        pre.under_construction@,
    )
    &&& post == (Bot {
        owned_tags: post.owned_tags,
        under_construction: post.under_construction,
        ..pre
    })
}

/// Whether `post` is the bot `pre` after it looked for the race of an
/// opponent who plays random, which gave rise to `events`: where the race is
/// not known and a unit of the opponent tells it, the race is noted and told.
pub open spec fn noted_race(pre: Bot, post: Bot, events: Seq<Event>) -> bool {
    match (pre.enemy_race, first_race(pre.units.enemy.all@, &pre.game_data)) {
        (Race::Random, Some(race)) => events == seq![Event::RandomRaceDetected(race)] && post == (
        Bot { enemy_race: race, ..pre }),
        _ => events == Seq::<Event>::empty() && post == pre,
    }
}

/// Whether the bot `pre` becomes `post` by taking in an observation in four
/// steps: it notes the deaths, which leaves `a` and tells `e1`; takes the
/// units in, which leaves `b`; compares its units with the tags it owned,
/// which leaves `c` and tells `e2`; and looks for the opponent's race, which
/// tells `e3`.
pub open spec fn in_steps(
    pre: Bot,
    a: Bot,
    b: Bot,
    c: Bot,
    post: Bot,
    dead: Seq<u64>,
    all_units: Seq<UnitView>,
    e1: Seq<Event>,
    e2: Seq<Event>,
    e3: Seq<Event>,
) -> bool {
    noted_dead(pre, a, dead, e1) && took_units(a, b, all_units) && noted_lifecycle(b, c, e2)
        && noted_race(c, post, e3)
}

/// Whether `post` is the bot `pre` after it took in an observation that
/// tells the deaths `dead` and shows the units `all_units`, which gave rise
/// to `events`: the events of the four steps, one after another.
pub open spec fn stepped(
    pre: Bot,
    post: Bot,
    dead: Seq<u64>,
    all_units: Seq<UnitView>,
    events: Seq<Event>,
) -> bool {
    exists|a: Bot, b: Bot, c: Bot, e1: Seq<Event>, e2: Seq<Event>, e3: Seq<Event>| #[trigger]
        in_steps(pre, a, b, c, post, dead, all_units, e1, e2, e3) && events == e1 + e2 + e3
}

impl Bot {
    /// Where the bot knows the tags of units.
    pub open spec fn known(&self) -> Known {
        Known {
            owned: self.owned_tags@,
            building: self.under_construction@,
            frames: self.available_frames@,
            hits: self.last_units_hits@,
            seen: self.last_units_seen@,
            saved: self.saved_hallucinations@,
            cached: self.units.cached@,
            minerals: minerals_of_bases(self.expansions@),
        }
    }

    /// Takes in the deaths that an observation tells; see [`noted_dead`].
    pub fn note_dead(&mut self, dead: Vec<u64>) -> (events: Vec<Event>)
        requires
            old(self).wf(),
        ensures
            final(self).wf(),
            noted_dead(*old(self), *final(self), dead@, events@),
    {
        let terran = self.enemy_race.is_terran();
        let events = bury_all(
            &dead,
            terran,
            &mut self.owned_tags,
            &mut self.under_construction,
            &mut self.available_frames,
            &mut self.last_units_hits,
            &mut self.last_units_seen,
            &mut self.saved_hallucinations,
            &mut self.units.cached,
            &mut self.expansions,
        );
        self.state.observation.raw.dead_units = dead;
        proof {
            let pre = *old(self);
            let post = *self;
            assert(events@ == death_events(dead@, pre.known(), terran));
            assert(post.known() == after_deaths(dead@, pre.known(), terran));
            assert(post.state.observation.raw.dead_units@ == dead@);
            assert(post.units == (AllUnits { cached: post.units.cached, ..pre.units }));
            assert(post.state == (GameState {
                observation: crate::game_state::Observation {
                    raw: crate::game_state::RawData {
                        dead_units: post.state.observation.raw.dead_units,
                        ..pre.state.observation.raw
                    },
                    ..pre.state.observation
                },
                ..pre.state
            }));
        }
        events
    }

    /// Compares the bot's units with the tags it owned; see
    /// [`noted_lifecycle`].
    pub fn note_lifecycle(&mut self) -> (events: Vec<Event>)
        requires
            old(self).wf(),
        ensures
            final(self).wf(),
            noted_lifecycle(*old(self), *final(self), events@),
    {
        lifecycle_events(
            &self.units.my.all,
            &self.game_data,
            &mut self.owned_tags,
            &mut self.under_construction,
        )
    }

    /// Looks for the race of an opponent who plays random; see
    /// [`noted_race`].
    pub fn detect_race(&mut self) -> (events: Vec<Event>)
        ensures
            noted_race(*old(self), *final(self), events@),
    {
        let mut events: Vec<Event> = Vec::new();
        if self.enemy_race.is_random() {
            let n = self.units.enemy.all.len();
            let mut i: usize = 0;
            assert(self.units.enemy.all@.skip(0) =~= self.units.enemy.all@);
            while i < n
                invariant
                    i <= n,
                    n == self.units.enemy.all@.len(),
                    *self == *old(self),
                    old(self).enemy_race == Race::Random,
                    events@.len() == 0,
                    first_race(self.units.enemy.all@, &self.game_data) == first_race(
                        self.units.enemy.all@.skip(i as int),
                        &self.game_data,
                    ),
                decreases n - i,
            {
                let ghost rest = self.units.enemy.all@.skip(i as int);
                proof {
                    assert(rest[0] == self.units.enemy.all@[i as int]);
                    assert(rest.skip(1) =~= self.units.enemy.all@.skip(i + 1));
                }
                let race = match self.units.enemy.all.get_index(i) {
                    Some(u) => u.race(&self.game_data),
                    None => Race::Random,
                };
                if !race.is_random() {
                    events.push(Event::RandomRaceDetected(race));
                    self.enemy_race = race;
                    assert(events@ =~= seq![Event::RandomRaceDetected(race)]);
                    return events;
                }
                i += 1;
            }
        }
        assert(events@ =~= Seq::<Event>::empty());
        events
    }

    /// Takes in an observation: the deaths it tells and the units it shows.
    /// Tells what happened since the observation before: first the deaths,
    /// then what became of the bot's units, then the race of the opponent
    /// where it was not known.
    pub fn update_state(&mut self, dead: Vec<u64>, all_units: Units) -> (events: Vec<Event>)
        requires
            old(self).wf(),
            all_units.wf(),
        ensures
            final(self).wf(),
            stepped(*old(self), *final(self), dead@, all_units@, events@),
    {
        let ghost units = all_units@;
        let ghost tags = dead@;
        let mut events = self.note_dead(dead);
        let ghost a = *self;
        let ghost e1 = events@;
        self.update_units(all_units);
        let ghost b = *self;
        let mut born = self.note_lifecycle();
        let ghost c = *self;
        let ghost e2 = born@;
        events.append(&mut born);
        let mut race = self.detect_race();
        let ghost e3 = race@;
        events.append(&mut race);
        proof {
            assert(events@ =~= e1 + e2 + e3);
            assert(in_steps(*old(self), a, b, c, *self, tags, units, e1, e2, e3));
        }
        events
    }

    /// Puts the bases in the order of what they cost to hold, given for each
    /// base the length of the path from the bot's start and from the
    /// opponent's; see [`order_expansions`].
    pub fn order_bases(&mut self, my_paths: &Vec<Option<i32>>, enemy_paths: &Vec<Option<i32>>)
        requires
            old(self).wf(),
        ensures
            final(self).wf(),
            final(self).expansions@.len() == old(self).expansions@.len(),
            forall|k: int|
                0 <= k < final(self).expansions@.len() ==> #[trigger] final(self).expansions@[k] == old(
                    self,
                ).expansions@[rising_order(
                    scores(old(self).expansions@.len(), my_paths@, enemy_paths@),
                    old(self).expansions@.len(),
                )[k] as int],
            *final(self) == (Bot { expansions: final(self).expansions, ..*old(self) }),
    {
        let mut taken: Vec<Expansion> = Vec::new();
        std::mem::swap(&mut taken, &mut self.expansions);
        let ghost given = taken@;
        let ghost n = taken.len();
        let ordered = order_expansions(taken, my_paths, enemy_paths);
        proof {
            assert(given.len() == n);
            crate::order::lemma_rising_order(
                scores(given.len(), my_paths@, enemy_paths@),
                given.len(),
            );
            let order = rising_order(scores(given.len(), my_paths@, enemy_paths@), given.len());
            assert forall|k: int| 0 <= k < ordered@.len() implies (#[trigger] ordered@[k]).wf() by {
                assert(order.contains(order[k]));
                assert(given[order[k] as int].wf());
            }
        }
        self.expansions = ordered;
    }

    /// The start site of a player: where the player starts and the centre of
    /// the resources there, whatever their kind.
    pub open spec fn site_at(&self, location: Point2) -> StartSite {
        StartSite {
            location,
            center: start_center_of(
                every_resource(
                    self.units.resources@,
                    &self.game_data,
                    &self.game_info.terrain_height,
                ),
                location,
            ),
        }
    }

    /// Where the bot starts: at its first main building, or where it was
    /// taken to start if it has none.
    pub open spec fn start_of(&self) -> Point2 {
        if self.units.my.townhalls@.len() > 0 {
            self.units.my.townhalls@[0].position
        } else {
            self.start_location
        }
    }

    /// Where the opponent starts: at the first start location that the map
    /// gives, or where it was taken to start if the map gives none.
    pub open spec fn enemy_start_of(&self) -> Point2 {
        if self.game_info.start_locations@.len() > 0 {
            self.game_info.start_locations@[0]
        } else {
            self.enemy_start
        }
    }

    /// Finds out what stays the same for the whole game: where both players
    /// start, where bases can stand, and where the ramps are. Fails where a
    /// group of resources has no place for a base; then nothing but the start
    /// sites is noted.
    pub fn prepare_start(&mut self) -> (r: Result<(), ExpansionError>)
        requires
            old(self).wf(),
        ensures
            final(self).wf(),
            ({
                let pre = *old(self);
                let post = *final(self);
                let rs = base_resources(
                    pre.units.resources@,
                    &pre.game_data,
                    &pre.game_info.terrain_height,
                );
                let mine = pre.site_at(pre.start_of());
                let theirs = pre.site_at(pre.enemy_start_of());
                let townhall = if pre.units.my.townhalls@.len() > 0 {
                    Some(pre.units.my.townhalls@[0].tag)
                } else {
                    None
                };
                let info = pre.game_info;
                &&& post.start_location == mine.location
                &&& post.start_center == mine.center
                &&& post.enemy_start == theirs.location
                &&& post.enemy_start_center == theirs.center
                &&& match r {
                    Ok(_) => {
                        &&& exists|clusters: Seq<Seq<usize>>, noise: Seq<usize>|
                            clustering(resource_graph(rs), 1, clusters, noise) && sites_of(
                                post.expansions@,
                                clusters,
                                rs,
                                &info.placement_grid,
                                mine,
                                theirs,
                                townhall,
                            )
                        &&& post.vision_blockers@ == area_cells(
                            &info.pathing_grid,
                            &info.placement_grid,
                            &info.terrain_height,
                            info.playable_area,
                            info.playable_area.x1 as int,
                            false,
                        )
                        &&& exists|clusters: Seq<Seq<usize>>, noise: Seq<usize>|
                            clustering(cell_graph(pre.slope_cells()), 1, clusters, noise)
                                && ramps_of(post.ramps.all@, clusters, pre.slope_cells())
                        &&& post.is_main_ramp(post.ramps.my, post.start_location)
                        &&& post.is_main_ramp(post.ramps.enemy, post.enemy_start)
                        &&& post == (Bot {
                            start_location: post.start_location,
                            start_center: post.start_center,
                            enemy_start: post.enemy_start,
                            enemy_start_center: post.enemy_start_center,
                            expansions: post.expansions,
                            vision_blockers: post.vision_blockers,
                            ramps: post.ramps,
                            ..pre
                        })
                    },
                    Err(e) => {
                        &&& exists|clusters: Seq<Seq<usize>>, noise: Seq<usize>, k: int|
                            clustering(resource_graph(rs), 1, clusters, noise) && 0 <= k
                                < clusters.len() && clusters[k].len() > 1 && e
                                == ExpansionError::NoPlacement(
                                cluster_center(members(rs, clusters[k])),
                            ) && has_no_site(
                                members(rs, clusters[k]),
                                &info.placement_grid,
                                mine,
                                theirs,
                            )
                        &&& post == (Bot {
                            start_location: post.start_location,
                            start_center: post.start_center,
                            enemy_start: post.enemy_start,
                            enemy_start_center: post.enemy_start_center,
                            ..pre
                        })
                    },
                }
            }),
    {
        let townhall = match self.units.my.townhalls.first() {
            Some(t) => {
                self.start_location = t.position;
                Some(t.tag)
            },
            None => None,
        };
        if self.game_info.start_locations.len() > 0 {
            self.enemy_start = self.game_info.start_locations[0];
        }
        let rs = resources_from(
            &self.units.resources,
            &self.game_data,
            &self.game_info.terrain_height,
        );
        let all = every_resource_from(
            &self.units.resources,
            &self.game_data,
            &self.game_info.terrain_height,
        );
        self.start_center = start_center(&all, self.start_location);
        self.enemy_start_center = start_center(&all, self.enemy_start);
        let mine = StartSite { location: self.start_location, center: self.start_center };
        let theirs = StartSite { location: self.enemy_start, center: self.enemy_start_center };
        proof {
            let pre = *old(self);
            assert(self.start_location == pre.start_of());
            assert(self.enemy_start == pre.enemy_start_of());
            assert(mine == pre.site_at(pre.start_of()));
            assert(theirs == pre.site_at(pre.enemy_start_of()));
        }
        let found = match find_expansions(&rs, &self.game_info.placement_grid, mine, theirs, townhall) {
            Ok(found) => found,
            Err(e) => {
                return Err(e);
            },
        };
        self.expansions = found;
        let (slopes, blockers) = scan_slopes(
            &self.game_info.pathing_grid,
            &self.game_info.placement_grid,
            &self.game_info.terrain_height,
            self.game_info.playable_area,
        );
        self.vision_blockers = blockers;
        let ramps = find_ramps(&slopes);
        let my_cell = self.start_location.cell();
        let enemy_cell = self.enemy_start.cell();
        assert(my_cell == (
            cell_of(self.start_location.x as int) as usize,
            cell_of(self.start_location.y as int) as usize,
        ));
        assert(enemy_cell == (
            cell_of(self.enemy_start.x as int) as usize,
            cell_of(self.enemy_start.y as int) as usize,
        ));
        let my = main_ramp(&ramps, &self.game_info.terrain_height, my_cell);
        let enemy = main_ramp(&ramps, &self.game_info.terrain_height, enemy_cell);
        self.ramps = Ramps { all: ramps, my, enemy };
        proof {
            let pre = *old(self);
            let post = *self;
            let info = pre.game_info;
            let rs0 = base_resources(
                pre.units.resources@,
                &pre.game_data,
                &pre.game_info.terrain_height,
            );
            assert(rs@ == rs0);
            assert(post.start_location == pre.start_of());
            assert(post.enemy_start == pre.enemy_start_of());
            assert(mine == pre.site_at(pre.start_of()));
            assert(theirs == pre.site_at(pre.enemy_start_of()));
            assert(post.vision_blockers@ == area_cells(
                &info.pathing_grid,
                &info.placement_grid,
                &info.terrain_height,
                info.playable_area,
                info.playable_area.x1 as int,
                false,
            ));
            assert(slopes@ == pre.slope_cells());
            assert(post.is_main_ramp(post.ramps.my, post.start_location));
            assert(post.is_main_ramp(post.ramps.enemy, post.enemy_start));
            assert(post == (Bot {
                start_location: post.start_location,
                start_center: post.start_center,
                enemy_start: post.enemy_start,
                enemy_start_center: post.enemy_start_center,
                expansions: post.expansions,
                vision_blockers: post.vision_blockers,
                ramps: post.ramps,
                ..pre
            }));
        }
        Ok(())
    }

    /// The cells of the played part of the map that are part of a slope.
    pub open spec fn slope_cells(&self) -> Seq<(usize, usize)> {
        area_cells(
            &self.game_info.pathing_grid,
            &self.game_info.placement_grid,
            &self.game_info.terrain_height,
            self.game_info.playable_area,
            self.game_info.playable_area.x1 as int,
            true,
        )
    }

    /// Whether `ramp` is the place of the main ramp of the base at `loc`:
    /// the nearest ramp whose upper edge is 2 or 5 cells wide, or, where no
    /// ramp is so wide, the nearest whose upper edge is 4 or 9 cells wide.
    pub open spec fn is_main_ramp(&self, ramp: Option<usize>, loc: Point2) -> bool {
        let heights = &self.game_info.terrain_height;
        let cell = (cell_of(loc.x as int) as usize, cell_of(loc.y as int) as usize);
        match ramp {
            Some(k) => is_nearest(self.ramps.all@, heights, k as int, cell, 2, 5) || ((forall|
                j: int,
            | !#[trigger] has_width(self.ramps.all@, heights, j, 2, 5)) && is_nearest(
                self.ramps.all@,
                heights,
                k as int,
                cell,
                4,
                9,
            )),
            None => (forall|j: int| !#[trigger] has_width(self.ramps.all@, heights, j, 2, 5)) && (
            forall|j: int| !#[trigger] has_width(self.ramps.all@, heights, j, 4, 9)),
        }
    }
}

/// How far from a point, away from the centre of the map, a path to or from
/// it is asked about: five cells, in 4096ths.
pub const PATH_SETBACK: i32 = 20480;

/// The point that lies [`PATH_SETBACK`] further from the centre of the map
/// than `p`, on the line through both; `p` itself where there is no such
/// point.
pub open spec fn set_back(p: Point2, centre: Point2) -> Point2 {
    match towards_of(p, centre, -PATH_SETBACK as int) {
        Some(q) => q,
        None => p,
    }
}

/// The point set back from the centre of the map; see [`set_back`].
pub fn set_back_from(p: Point2, centre: Point2) -> (r: Point2)
    ensures
        r == set_back(p, centre),
{
    match p.towards(centre, -PATH_SETBACK) {
        Some(q) => q,
        None => p,
    }
}

impl Bot {
    /// The paths to ask the game about before the bases are put in order:
    /// for each base, in the order of the bases, the path from `from` to
    /// the base, both set back from the centre of the map.
    pub fn path_questions(&self, from: Point2) -> (r: Vec<(Point2, Point2)>)
        ensures
            r@.len() == self.expansions@.len(),
            forall|k: int|
                0 <= k < r@.len() ==> #[trigger] r@[k] == (
                    set_back(from, self.game_info.map_center),
                    set_back(self.expansions@[k].loc, self.game_info.map_center),
                ),
    {
        let centre = self.game_info.map_center;
        let start = set_back_from(from, centre);
        let mut r: Vec<(Point2, Point2)> = Vec::new();
        let mut i: usize = 0;
        while i < self.expansions.len()
            invariant
                i <= self.expansions.len(),
                r@.len() == i,
                centre == self.game_info.map_center,
                start == set_back(from, centre),
                forall|k: int|
                    0 <= k < i ==> #[trigger] r@[k] == (
                        start,
                        set_back(self.expansions@[k].loc, centre),
                    ),
            decreases self.expansions.len() - i,
        {
            r.push((start, set_back_from(self.expansions[i].loc, centre)));
            i += 1;
        }
        r
    }
}

impl Unit {
    /// The upgrades of the unit's owner: those of the bot for one of its own
    /// units, else those that the opponent is taken to have.
    pub fn upgrades<'a>(&self, bot: &'a Bot) -> (r: &'a Vec<UpgradeId>)
        ensures
            r@ == if self@.alliance == Alliance::Own {
                bot.state.observation.raw.upgrades@
            } else {
                bot.enemy_upgrades@
            },
    {
        if self.is_mine() {
            &bot.state.observation.raw.upgrades
        } else {
            &bot.enemy_upgrades
        }
    }
}

} // verus!
