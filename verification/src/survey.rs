//! What the bot asks of what it knows: how many units there are, how far an
//! upgrade is, what lies around a cell, and where to build.
use vstd::prelude::*;
use crate::action::{Commander, Pending};
use crate::bot::{has_upgrade_in, Bot, Completion, PlacementOptions, Ramps, UnitAlias};
use crate::counter::Counter;
use crate::game_data::{alias_of, find_alias, find_tech_alias, tech_alias_of, GameData};
use crate::game_state::{GameInfo, GameState, Race};
use crate::geometry::{dist2, Point2, SCALE, Visibility};
use crate::ids::{AbilityId, UnitTypeId, UpgradeId};
use crate::placement::{
    addon_questions, ask_about, questions, PlacementQuery, PlacementSearch, SearchStage,
};
use crate::tags::{TagMap, TagSet};
use crate::unit::{Unit, UnitOrder, UnitView};
use crate::units::{AllUnits, Units};

verus! {

/// How far from a base its geysers lie at most, in 4096ths.
pub const GEYSER_REACH: i64 = 45056;

/// How to count units.
#[derive(Debug, Clone, Copy, PartialEq, Eq, Structural)]
pub struct CountOptions {
    /// Whether the opponent's units are counted, or the bot's.
    pub enemies: bool,
    /// Which units are counted: the complete ones, those being made, or
    /// both.
    pub completion: Completion,
    /// Which other types count with the type asked for.
    pub alias: UnitAlias,
}

/// A count that does not go beyond the greatest `usize`.
pub open spec fn capped(n: nat) -> usize {
    if n > usize::MAX {
        usize::MAX
    } else {
        n as usize
    }
}

impl Bot {
    /// How many units of the type `id` are being made: of the opponent's
    /// the structures under construction, of the bot's the orders that make
    /// one.
    pub open spec fn ordered_of(&self, enemies: bool, id: UnitTypeId) -> nat {
        if enemies {
            self.enemies_ordered.count(id)
        } else {
            match self.game_data.spec_unit(id) {
                Some(d) => match d.ability {
                    Some(a) => self.orders.count(a),
                    None => 0,
                },
                None => 0,
            }
        }
    }

    /// How many complete units of the type `id` there are.
    pub open spec fn complete_of(&self, enemies: bool, id: UnitTypeId) -> nat {
        if enemies {
            self.enemies_current.count(id)
        } else {
            self.current_units.count(id)
        }
    }

    /// How many units of the type `id` the options count, other types left
    /// aside.
    pub open spec fn count_of(&self, options: CountOptions, id: UnitTypeId) -> nat {
        match options.completion {
            Completion::Complete => self.complete_of(options.enemies, id),
            Completion::Ordered => self.ordered_of(options.enemies, id),
            Completion::All => self.complete_of(options.enemies, id) + self.ordered_of(
                options.enemies,
                id,
            ),
        }
    }

    /// How many units of the first `n` of the types the options count.
    pub open spec fn count_of_all(&self, options: CountOptions, types: Seq<UnitTypeId>, n: int) -> nat
        decreases n,
    {
        if n <= 0 {
            0
        } else {
            self.count_of_all(options, types, n - 1) + self.count_of(options, types[n - 1])
        }
    }

    /// How many units the options count for the type `id`: those of the type,
    /// and with an alias those of the other form, or of the types that stand
    /// for the same step of the tech tree.
    pub open spec fn total_count(&self, options: CountOptions, id: UnitTypeId) -> nat {
        self.count_of(options, id) + match options.alias {
            UnitAlias::Alone => 0nat,
            UnitAlias::Unit => match alias_of(self.game_data.unit_alias@, id) {
                Some(other) => self.count_of(options, other),
                None => 0nat,
            },
            UnitAlias::Tech => match tech_alias_of(self.game_data.tech_alias@, id) {
                Some(others) => self.count_of_all(options, others, others.len() as int),
                None => 0nat,
            },
        }
    }

    /// Options that count the bot's complete units of a type.
    pub fn counter(&self) -> (r: CountOptions)
        ensures
            r == (CountOptions {
                enemies: false,
                completion: Completion::Complete,
                alias: UnitAlias::Alone,
            }),
    {
        CountOptions { enemies: false, completion: Completion::Complete, alias: UnitAlias::Alone }
    }

    /// Options that count the opponent's complete units of a type.
    pub fn enemy_counter(&self) -> (r: CountOptions)
        ensures
            r == (CountOptions {
                enemies: true,
                completion: Completion::Complete,
                alias: UnitAlias::Alone,
            }),
    {
        CountOptions { enemies: true, completion: Completion::Complete, alias: UnitAlias::Alone }
    }

    fn count_one(&self, options: CountOptions, id: UnitTypeId) -> (n: usize)
        ensures
            n == capped(self.count_of(options, id)),
    {
        let complete = if options.enemies {
            self.enemies_current.get(id)
        } else {
            self.current_units.get(id)
        };
        let ordered = if options.enemies {
            self.enemies_ordered.get(id)
        } else {
            match self.game_data.unit(id) {
                Some(d) => match d.ability {
                    Some(a) => self.orders.get(a),
                    None => 0,
                },
                None => 0,
            }
        };
        match options.completion {
            Completion::Complete => complete,
            Completion::Ordered => ordered,
            Completion::All => complete.saturating_add(ordered),
        }
    }

    /// Counts the units of the type `id` as the options say; the greatest
    /// `usize` where there are more.
    pub fn count(&self, options: CountOptions, id: UnitTypeId) -> (n: usize)
        ensures
            n == capped(self.total_count(options, id)),
    {
        let own = self.count_one(options, id);
        match options.alias {
            UnitAlias::Alone => own,
            UnitAlias::Unit => match find_alias(&self.game_data.unit_alias, id) {
                Some(other) => own.saturating_add(self.count_one(options, other)),
                None => own,
            },
            UnitAlias::Tech => match find_tech_alias(&self.game_data.tech_alias, id) {
                Some(others) => {
                    let mut sum: usize = 0;
                    let mut i: usize = 0;
                    while i < others.len()
                        invariant
                            i <= others.len(),
                            sum == capped(self.count_of_all(options, others@, i as int)),
                        decreases others.len() - i,
                    {
                        sum = sum.saturating_add(self.count_one(options, others[i]));
                        i += 1;
                    }
                    own.saturating_add(sum)
                },
                None => own,
            },
        }
    }

    /// The progress at which the first of the orders that use the ability
    /// stands; `None` where none of them uses it.
    pub open spec fn progress_in(orders: Seq<UnitOrder>, ability: AbilityId) -> Option<i32>
        decreases orders.len(),
    {
        if orders.len() == 0 {
            None
        } else if orders[0].ability == ability {
            Some(orders[0].progress)
        } else {
            Self::progress_in(orders.skip(1), ability)
        }
    }

    /// The progress of the first complete structure that has an order to use
    /// the ability; `None` where none has.
    pub open spec fn progress_among(units: Seq<UnitView>, ability: AbilityId) -> Option<i32>
        decreases units.len(),
    {
        if units.len() == 0 {
            None
        } else if units[0].is_ready() && Self::progress_in(units[0].orders, ability).is_some() {
            Self::progress_in(units[0].orders, ability)
        } else {
            Self::progress_among(units.skip(1), ability)
        }
    }

    /// How far the research of an upgrade is, from `0` to `SCALE`.
    pub open spec fn progress_of(&self, upgrade: UpgradeId) -> i32 {
        if has_upgrade_in(self.state.observation.raw.upgrades@, upgrade) {
            SCALE
        } else {
            match self.game_data.spec_upgrade(upgrade) {
                Some(d) => if self.orders.count(d.ability) > 0 {
                    match Self::progress_among(self.units.my.structures@, d.ability) {
                        Some(p) => p,
                        None => 0,
                    }
                } else {
                    0
                },
                None => 0,
            }
        }
    }

    /// How far the research of an upgrade is: `SCALE` for an upgrade that
    /// the bot has, `0` for one that is not being researched, else the
    /// progress of the order that researches it.
    pub fn upgrade_progress(&self, upgrade: UpgradeId) -> (r: i32)
        ensures
            r == self.progress_of(upgrade),
    {
        if self.has_upgrade(upgrade) {
            return SCALE;
        }
        if !self.is_ordered_upgrade(upgrade) {
            return 0;
        }
        let ability = match self.game_data.upgrade(upgrade) {
            Some(d) => d.ability,
            None => {
                return 0;
            },
        };
        match Self::scan_progress(&self.units.my.structures, ability) {
            Some(p) => p,
            None => 0,
        }
    }

    fn order_progress(orders: &Vec<UnitOrder>, ability: AbilityId) -> (r: Option<i32>)
        ensures
            r == Self::progress_in(orders@, ability),
    {
        let mut k: usize = 0;
        assert(orders@.skip(0) =~= orders@);
        while k < orders.len()
            invariant
                k <= orders.len(),
                Self::progress_in(orders@, ability) == Self::progress_in(
                    orders@.skip(k as int),
                    ability,
                ),
            decreases orders.len() - k,
        {
            assert(orders@.skip(k as int)[0] == orders@[k as int]);
            assert(orders@.skip(k as int).skip(1) =~= orders@.skip(k + 1));
            if orders[k].ability == ability {
                return Some(orders[k].progress);
            }
            k += 1;
        }
        None
    }

    fn scan_progress(structures: &Units, ability: AbilityId) -> (r: Option<i32>)
        ensures
            r == Self::progress_among(structures@, ability),
    {
        let n = structures.len();
        let mut i: usize = 0;
        assert(structures@.skip(0) =~= structures@);
        while i < n
            invariant
                i <= n,
                n == structures@.len(),
                Self::progress_among(structures@, ability) == Self::progress_among(
                    structures@.skip(i as int),
                    ability,
                ),
            decreases n - i,
        {
            assert(structures@.skip(i as int)[0] == structures@[i as int]);
            assert(structures@.skip(i as int).skip(1) =~= structures@.skip(i + 1));
            match structures.get_index(i) {
                Some(s) => {
                    if s.is_ready() {
                        match Self::order_progress(&s.orders, ability) {
                            Some(p) => {
                                return Some(p);
                            },
                            None => {},
                        }
                    }
                },
                None => {},
            }
            i += 1;
        }
        None
    }

    /// Checks if every cell up to `range` cells from the cell `pos` lies on
    /// the map and is seen now.
    pub fn is_surround_visible(&self, pos: (usize, usize), range: usize) -> (r: bool)
        ensures
            r == forall|dx: int, dy: int|
                -(range as int) <= dx <= range && -(range as int) <= dy <= range
                    ==> #[trigger] self.state.observation.raw.visibility.at(pos.0 + dx, pos.1 + dy)
                    == Some(Visibility::Visible),
    {
        let grid = &self.state.observation.raw.visibility;
        if pos.0 < range || pos.1 < range {
            proof {
                let dx: int = if pos.0 < range {
                    -(range as int)
                } else {
                    0
                };
                let dy: int = if pos.0 < range {
                    0
                } else {
                    -(range as int)
                };
                grid.lemma_outside(pos.0 + dx, pos.1 + dy);
                assert(grid.at(pos.0 + dx, pos.1 + dy) != Some(Visibility::Visible));
            }
            return false;
        }
        if pos.0 > usize::MAX - range || pos.1 > usize::MAX - range {
            proof {
                let dx: int = if pos.0 > usize::MAX - range {
                    range as int
                } else {
                    0
                };
                let dy: int = if pos.0 > usize::MAX - range {
                    0
                } else {
                    range as int
                };
                grid.lemma_beyond(pos.0 + dx, pos.1 + dy);
                assert(grid.at(pos.0 + dx, pos.1 + dy) != Some(Visibility::Visible));
            }
            return false;
        }
        let x0 = pos.0 - range;
        let y0 = pos.1 - range;
        let side = 2 * range + 1;
        let mut ix: usize = 0;
        while ix < side
            invariant
                ix <= side,
                side == 2 * range + 1,
                x0 == pos.0 - range,
                y0 == pos.1 - range,
                pos.0 + range <= usize::MAX,
                pos.1 + range <= usize::MAX,
                forall|a: int, b: int|
                    0 <= a < ix && 0 <= b < side ==> #[trigger] self.state.observation.raw.visibility.at(
                        x0 + a,
                        y0 + b,
                    ) == Some(Visibility::Visible),
            decreases side - ix,
        {
            let mut iy: usize = 0;
            while iy < side
                invariant
                    iy <= side,
                    ix < side,
                    side == 2 * range + 1,
                    x0 == pos.0 - range,
                    y0 == pos.1 - range,
                    pos.0 + range <= usize::MAX,
                    pos.1 + range <= usize::MAX,
                    forall|a: int, b: int|
                        0 <= a < ix && 0 <= b < side
                            ==> #[trigger] self.state.observation.raw.visibility.at(x0 + a, y0 + b)
                            == Some(Visibility::Visible),
                    forall|b: int|
                        0 <= b < iy ==> #[trigger] self.state.observation.raw.visibility.at(
                            x0 + ix,
                            y0 + b,
                        ) == Some(Visibility::Visible),
                decreases side - iy,
            {
                if !self.is_visible((x0 + ix, y0 + iy)) {
                    assert(self.state.observation.raw.visibility.at(
                        pos.0 + (ix - range),
                        pos.1 + (iy - range),
                    ) != Some(Visibility::Visible));
                    return false;
                }
                iy += 1;
            }
            ix += 1;
        }
        assert forall|dx: int, dy: int|
            -(range as int) <= dx <= range && -(range as int) <= dy <= range
                implies #[trigger] self.state.observation.raw.visibility.at(pos.0 + dx, pos.1 + dy)
            == Some(Visibility::Visible) by {
            assert(self.state.observation.raw.visibility.at(x0 + (dx + range), y0 + (dy + range))
                == Some(Visibility::Visible));
        }
        true
    }

    /// Checks if every cell no further than `range` cells from the cell
    /// `pos` lies on the map and is covered with creep.
    pub fn has_creep_around(&self, pos: (usize, usize), range: u32) -> (r: bool)
        ensures
            r == forall|dx: int, dy: int|
                -(range as int) <= dx <= range && -(range as int) <= dy <= range && dx * dx + dy
                    * dy <= range * range ==> #[trigger] self.state.observation.raw.creep.at(
                    pos.0 + dx,
                    pos.1 + dy,
                ) == Some(true),
    {
        let grid = &self.state.observation.raw.creep;
        let reach: i128 = range as i128;
        assert(0 <= reach * reach <= 0xffff_ffff * 0xffff_ffff) by (nonlinear_arith)
            requires
                0 <= reach <= 0xffff_ffff,
        ;
        let limit: i128 = reach * reach;
        let mut dx: i128 = -reach;
        while dx <= reach
            invariant
                -reach <= dx <= reach + 1,
                reach == range,
                limit == range * range,
                forall|a: int, b: int|
                    -(range as int) <= a < dx && -(range as int) <= b <= range && a * a + b * b
                        <= range * range ==> #[trigger] self.state.observation.raw.creep.at(
                        pos.0 + a,
                        pos.1 + b,
                    ) == Some(true),
            decreases reach + 1 - dx,
        {
            let mut dy: i128 = -reach;
            while dy <= reach
                invariant
                    -reach <= dy <= reach + 1,
                    -reach <= dx <= reach,
                    reach == range,
                    limit == range * range,
                    forall|a: int, b: int|
                        -(range as int) <= a < dx && -(range as int) <= b <= range && a * a + b * b
                            <= range * range ==> #[trigger] self.state.observation.raw.creep.at(
                            pos.0 + a,
                            pos.1 + b,
                        ) == Some(true),
                    forall|b: int|
                        -(range as int) <= b < dy && dx * dx + b * b <= range * range
                            ==> #[trigger] self.state.observation.raw.creep.at(pos.0 + dx, pos.1 + b)
                            == Some(true),
                decreases reach + 1 - dy,
            {
                assert(0 <= dx * dx <= 0xffff_ffff * 0xffff_ffff && 0 <= dy * dy <= 0xffff_ffff
                    * 0xffff_ffff) by (nonlinear_arith)
                    requires
                        -0xffff_ffff <= dx <= 0xffff_ffff,
                        -0xffff_ffff <= dy <= 0xffff_ffff,
                ;
                if dx * dx + dy * dy <= limit {
                    let x: i128 = pos.0 as i128 + dx;
                    let y: i128 = pos.1 as i128 + dy;
                    let covered = if x < 0 || y < 0 || x > usize::MAX as i128 || y
                        > usize::MAX as i128 {
                        proof {
                            self.state.observation.raw.creep.lemma_beyond(x as int, y as int);
                        }
                        false
                    } else {
                        self.has_creep((x as usize, y as usize))
                    };
                    if !covered {
                        assert(self.state.observation.raw.creep.at(pos.0 + dx, pos.1 + dy) != Some(
                            true,
                        ));
                        return false;
                    }
                }
                dy += 1;
            }
            dx += 1;
        }
        true
    }

    /// The search for a place near `near` for a building of the type
    /// `building`, and the first questions to the game; `None` where the
    /// rules know no ability that places such a building.
    pub fn find_placement(&self, building: UnitTypeId, near: Point2, options: PlacementOptions) -> (r:
        Option<(PlacementSearch, Vec<PlacementQuery>)>)
        ensures
            match r {
                Some((search, asked)) => {
                    &&& self.game_data.spec_unit(building).is_some()
                    &&& self.game_data.spec_unit(building).unwrap().ability == Some(search.ability)
                    &&& search.near == near
                    &&& search.options == options
                    &&& search.stage == SearchStage::First
                    &&& search.distance == 0
                    &&& search.candidates@ == seq![near]
                    &&& asked@ == if options.addon {
                        questions(search.ability, seq![near]) + addon_questions(seq![near])
                    } else {
                        questions(search.ability, seq![near])
                    }
                },
                None => self.game_data.spec_unit(building).is_none() || self.game_data.spec_unit(
                    building,
                ).unwrap().ability.is_none(),
            },
    {
        match self.game_data.unit(building) {
            Some(d) => match d.ability {
                Some(ability) => Some(PlacementSearch::start(ability, near, options)),
                None => None,
            },
            None => None,
        }
    }

    /// The geysers no further than `GEYSER_REACH` from `base`, and for each
    /// the question whether a building of the type `gas` can be placed on
    /// it. `None` where the rules know no ability that places such a
    /// building.
    pub fn find_gas_placement(&self, base: Point2, gas: UnitTypeId) -> (r: Option<
        (Units, Vec<PlacementQuery>),
    >)
        requires
            self.units.vespene_geysers.wf(),
        ensures
            match r {
                Some((geysers, asked)) => {
                    &&& self.game_data.spec_unit(gas).is_some()
                    &&& self.game_data.spec_unit(gas).unwrap().ability.is_some()
                    &&& geysers.wf()
                    &&& geysers@ == self.units.vespene_geysers@.filter(
                        |u: UnitView| dist2(u.position, base) <= GEYSER_REACH * GEYSER_REACH,
                    )
                    &&& asked@ == questions(
                        self.game_data.spec_unit(gas).unwrap().ability.unwrap(),
                        geysers@.map_values(|u: UnitView| u.position),
                    )
                },
                None => self.game_data.spec_unit(gas).is_none() || self.game_data.spec_unit(
                    gas,
                ).unwrap().ability.is_none(),
            },
    {
        let ability = match self.game_data.unit(gas) {
            Some(d) => match d.ability {
                Some(a) => a,
                None => {
                    return None;
                },
            },
            None => {
                return None;
            },
        };
        let geysers = self.units.vespene_geysers.closer(GEYSER_REACH, base);
        let mut places: Vec<Point2> = Vec::new();
        let n = geysers.len();
        let mut i: usize = 0;
        while i < n
            invariant
                i <= n,
                n == geysers@.len(),
                places@ == geysers@.take(i as int).map_values(|u: UnitView| u.position),
            decreases n - i,
        {
            match geysers.get_index(i) {
                Some(u) => {
                    places.push(u.position);
                    assert(geysers@.take(i + 1).map_values(|u: UnitView| u.position) =~= geysers@.take(
                        i as int,
                    ).map_values(|u: UnitView| u.position).push(geysers@[i as int].position));
                },
                None => {},
            }
            i += 1;
        }
        assert(geysers@.take(n as int) =~= geysers@);
        let asked = ask_about(ability, &places);
        Some((geysers, asked))
    }

    /// Whether the bot has taken in nothing yet: it takes every step of the
    /// game, has not left, knows no races, holds no units, orders, actions,
    /// bases or ramps, remembers nothing, and all its numbers are nothing.
    pub open spec fn is_fresh(&self) -> bool {
        &&& self.game_step == 1
        &&& !self.game_left
        &&& self.race == Race::Random
        &&& self.enemy_race == Race::Random
        &&& self.player_id == 0
        &&& self.enemy_player_id == 0
        &&& self.actions@.len() == 0
        &&& self.commander.commands() == Pending::empty()
        &&& self.commander.autocast() == Pending::empty()
        &&& self.units.all@.len() == 0
        &&& self.units.my.is_empty()
        &&& self.units.enemy.is_empty()
        &&& self.units.cached.is_empty()
        &&& self.units.mineral_fields@.len() == 0
        &&& self.units.vespene_geysers@.len() == 0
        &&& self.units.resources@.len() == 0
        &&& self.units.destructables@.len() == 0
        &&& self.units.watchtowers@.len() == 0
        &&& self.units.inhibitor_zones@.len() == 0
        &&& forall|a: AbilityId| self.orders.count(a) == 0
        &&& forall|t: UnitTypeId| self.current_units.count(t) == 0
        &&& forall|t: UnitTypeId| self.enemies_ordered.count(t) == 0
        &&& forall|t: UnitTypeId| self.enemies_current.count(t) == 0
        &&& self.saved_hallucinations@ == Set::<u64>::empty()
        &&& self.time == 0
        &&& self.minerals == 0
        &&& self.vespene == 0
        &&& self.supply_army == 0
        &&& self.supply_workers == 0
        &&& self.supply_cap == 0
        &&& self.supply_used == 0
        &&& self.supply_left == 0
        &&& self.start_location == (Point2 { x: 0, y: 0 })
        &&& self.enemy_start == (Point2 { x: 0, y: 0 })
        &&& self.start_center == (Point2 { x: 0, y: 0 })
        &&& self.enemy_start_center == (Point2 { x: 0, y: 0 })
        &&& self.techlab_tags@ == Set::<u64>::empty()
        &&& self.reactor_tags@ == Set::<u64>::empty()
        &&& self.expansions@.len() == 0
        &&& self.max_cooldowns@.len() == 0
        &&& self.last_units_hits@ == Map::<u64, u32>::empty()
        &&& self.last_units_seen@ == Map::<u64, u32>::empty()
        &&& self.vision_blockers@.len() == 0
        &&& self.ramps.all@.len() == 0
        &&& self.ramps.my.is_none()
        &&& self.ramps.enemy.is_none()
        &&& self.enemy_upgrades@.len() == 0
        &&& self.owned_tags@ == Set::<u64>::empty()
        &&& self.under_construction@ == Set::<u64>::empty()
        &&& self.available_frames@ == Map::<u64, u32>::empty()
        &&& self.abilities_units@.len() == 0
    }

    /// A bot that knows the map and the rules and nothing else yet.
    pub fn new(game_info: GameInfo, game_data: GameData, state: GameState) -> (r: Bot)
        ensures
            r.wf(),
            r.is_fresh(),
            r.game_info == game_info,
            r.game_data == game_data,
            r.state == state,
    {
        Bot {
            game_step: 1,
            game_left: false,
            race: Race::Random,
            enemy_race: Race::Random,
            player_id: 0,
            enemy_player_id: 0,
            actions: Vec::new(),
            commander: Commander::new(),
            game_info,
            game_data,
            state,
            units: AllUnits::new(),
            orders: Counter::new(),
            current_units: Counter::new(),
            enemies_ordered: Counter::new(),
            enemies_current: Counter::new(),
            saved_hallucinations: TagSet::new(),
            time: 0,
            minerals: 0,
            vespene: 0,
            supply_army: 0,
            supply_workers: 0,
            supply_cap: 0,
            supply_used: 0,
            supply_left: 0,
            start_location: Point2 { x: 0, y: 0 },
            enemy_start: Point2 { x: 0, y: 0 },
            start_center: Point2 { x: 0, y: 0 },
            enemy_start_center: Point2 { x: 0, y: 0 },
            techlab_tags: TagSet::new(),
            reactor_tags: TagSet::new(),
            expansions: Vec::new(),
            max_cooldowns: Vec::new(),
            last_units_hits: TagMap::new(),
            last_units_seen: TagMap::new(),
            vision_blockers: Vec::new(),
            ramps: Ramps { all: Vec::new(), my: None, enemy: None },
            enemy_upgrades: Vec::new(),
            owned_tags: TagSet::new(),
            under_construction: TagSet::new(),
            available_frames: TagMap::new(),
            abilities_units: Vec::new(),
        }
    }

    /// Sets the races and the ids of the players from what is known of them:
    /// the race that the bot plays, and where there are two players the
    /// race that the opponent asked for and the opponent's id. Nothing
    /// changes where the bot is not among the players or its race is not
    /// told.
    pub fn init_players(&mut self)
        ensures
            ({
                let pre = *old(self);
                match Self::race_of(pre.game_info.players@, pre.player_id) {
                    Some((race, _)) => {
                        let other: int = 3 - pre.player_id;
                        match Self::race_of(pre.game_info.players@, other as u32) {
                            Some((_, asked)) => if pre.game_info.players@.len() == 2 && 0 <= other
                                <= u32::MAX {
                                *final(self) == (Bot {
                                    race,
                                    enemy_race: asked,
                                    enemy_player_id: other as u32,
                                    ..pre
                                })
                            } else {
                                *final(self) == (Bot { race, ..pre })
                            },
                            None => *final(self) == (Bot { race, ..pre }),
                        }
                    },
                    None => *final(self) == pre,
                }
            }),
    {
        let mine = Self::find_player(&self.game_info.players, self.player_id);
        match mine {
            Some((race, _)) => {
                self.race = race;
                if self.game_info.players.len() == 2 && self.player_id <= 3 {
                    let other = 3 - self.player_id;
                    match Self::find_player(&self.game_info.players, other) {
                        Some((_, asked)) => {
                            self.enemy_race = asked;
                            self.enemy_player_id = other;
                        },
                        None => {},
                    }
                }
            },
            None => {},
        }
    }

    /// The race that the first player of the list with the id plays, where
    /// it is told, and the race that the player asked for.
    pub open spec fn race_of(players: Seq<crate::game_state::PlayerInfo>, id: u32) -> Option<
        (Race, Race),
    >
        decreases players.len(),
    {
        if players.len() == 0 {
            None
        } else if players[0].id == id {
            match players[0].race_actual {
                Some(r) => Some((r, players[0].race_requested)),
                None => None,
            }
        } else {
            Self::race_of(players.skip(1), id)
        }
    }

    fn find_player(players: &Vec<crate::game_state::PlayerInfo>, id: u32) -> (r: Option<(Race, Race)>)
        ensures
            r == Self::race_of(players@, id),
    {
        let mut i: usize = 0;
        assert(players@.skip(0) =~= players@);
        while i < players.len()
            invariant
                i <= players.len(),
                Self::race_of(players@, id) == Self::race_of(players@.skip(i as int), id),
            decreases players.len() - i,
        {
            assert(players@.skip(i as int)[0] == players@[i as int]);
            assert(players@.skip(i as int).skip(1) =~= players@.skip(i + 1));
            if players[i].id == id {
                return match players[i].race_actual {
                    Some(r) => Some((r, players[i].race_requested)),
                    None => None,
                };
            }
            i += 1;
        }
        None
    }
}

impl CountOptions {
    /// Counts the units that are being made.
    pub fn ordered(self) -> (r: CountOptions)
        ensures
            r == (CountOptions { completion: Completion::Ordered, ..self }),
    {
        CountOptions { completion: Completion::Ordered, ..self }
    }

    /// Counts the complete units and those that are being made.
    pub fn all(self) -> (r: CountOptions)
        ensures
            r == (CountOptions { completion: Completion::All, ..self }),
    {
        CountOptions { completion: Completion::All, ..self }
    }

    /// Counts the other form of the unit too.
    pub fn alias(self) -> (r: CountOptions)
        ensures
            r == (CountOptions { alias: UnitAlias::Unit, ..self }),
    {
        CountOptions { alias: UnitAlias::Unit, ..self }
    }

    /// Counts the types that stand for the same step of the tech tree too.
    pub fn tech(self) -> (r: CountOptions)
        ensures
            r == (CountOptions { alias: UnitAlias::Tech, ..self }),
    {
        CountOptions { alias: UnitAlias::Tech, ..self }
    }

    /// Counts the units of the type `id` that `bot` knows; see
    /// [`Bot::count`].
    pub fn count(&self, bot: &Bot, id: UnitTypeId) -> (n: usize)
        ensures
            n == capped(bot.total_count(*self, id)),
    {
        bot.count(*self, id)
    }
}

impl Default for Bot {
    /// A bot that knows nothing: a map without cells, rules without
    /// entries, and no observation.
    fn default() -> (r: Bot)
        ensures
            r.wf(),
            r.is_fresh(),
            r.game_data.units@.len() == 0,
            r.game_data.abilities@.len() == 0,
            r.game_data.upgrades@.len() == 0,
            r.game_info.players@.len() == 0,
            r.game_info.start_locations@.len() == 0,
            r.game_info.terrain_height.spec_width() == 0,
            r.game_info.terrain_height.spec_height() == 0,
            r.state.observation.game_loop == 0,
            r.state.actions@.len() == 0,
            r.state.chat@.len() == 0,
            r.state.observation.raw.upgrades@.len() == 0,
            r.state.observation.raw.effects@.len() == 0,
            r.state.observation.raw.dead_units@.len() == 0,
    {
        match (GameInfo::blank(0, 0), GameState::blank(0, 0)) {
            (Some(info), Some(state)) => Bot::new(info, GameData::new(), state),
            _ => {
                proof {
                    assert(false);
                }
                vstd::pervasive::unreached()
            },
        }
    }
}

} // verus!
