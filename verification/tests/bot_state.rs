use sc2_core::action::{Action, Point3, Target};
use sc2_core::bot::{Bot, Completion, PlacementOptions, UnitAlias};
use sc2_core::expansion::ExpansionError;
use sc2_core::census::{count_enemies, count_own};
use sc2_core::game_data::{AbilityData, Attribute, GameData, UnitTypeData, UpgradeData};
use sc2_core::game_state::{Alliance, Effect, Event, GameInfo, GameState, PlayerInfo, Race};
use sc2_core::geometry::{Point2, Visibility, SCALE};
use sc2_core::ids::{AbilityId, BuffId, EffectId, UnitTypeId, UpgradeId};
use sc2_core::survey::CountOptions;
use sc2_core::unit::{DisplayType, Unit, UnitOrder};
use sc2_core::units::Units;
use sc2_core::upkeep::{
    expose_own, find_addons, has_any_watch, mark_hallucinations, note_hallucinations,
    raise_cooldowns, remember_hits, remember_seen,
};

const BUILD_BARRACKS: AbilityId = AbilityId::Other(321);
const TRAIN_MARINE: AbilityId = AbilityId::Other(560);

fn at(x: i32, y: i32) -> Point2 {
    Point2::new(x * SCALE + 2048, y * SCALE + 2048)
}

fn rules() -> GameData {
    let mut data = GameData::new();
    let entry = |t: UnitTypeId, race: Race, structure: bool, minerals: u32, vespene: u32, supply: i32| {
        let mut d = UnitTypeData::new(t, race);
        if structure {
            d.attributes = vec![Attribute::Structure];
        }
        d.mineral_cost = minerals;
        d.vespene_cost = vespene;
        d.food_required = supply;
        d
    };
    let mut barracks = entry(UnitTypeId::Barracks, Race::Terran, true, 150, 0, 0);
    barracks.ability = Some(BUILD_BARRACKS);
    data.units.push(barracks);
    let mut marine = entry(UnitTypeId::Marine, Race::Terran, false, 50, 0, SCALE);
    marine.ability = Some(TRAIN_MARINE);
    data.units.push(marine);
    data.units.push(entry(UnitTypeId::CommandCenter, Race::Terran, true, 400, 0, 0));
    data.units.push(entry(UnitTypeId::OrbitalCommand, Race::Terran, true, 550, 0, 0));
    data.units.push(entry(UnitTypeId::SCV, Race::Terran, false, 50, 0, SCALE));
    data.units.push(entry(UnitTypeId::Zergling, Race::Zerg, false, 25, 0, SCALE / 2));
    data.units.push(entry(UnitTypeId::Baneling, Race::Zerg, false, 50, 25, SCALE / 2));
    data.units.push(entry(UnitTypeId::Drone, Race::Zerg, false, 50, 0, SCALE));
    data.units.push(entry(UnitTypeId::Hatchery, Race::Zerg, true, 325, 0, 0));
    data.units.push(entry(UnitTypeId::Lair, Race::Zerg, true, 475, 100, 0));
    data.units.push(entry(UnitTypeId::OverlordTransport, Race::Zerg, false, 125, 25, 0));
    data.units.push(entry(UnitTypeId::Raven, Race::Terran, false, 100, 150, 2 * SCALE));
    data.units.push(entry(UnitTypeId::BarracksTechLab, Race::Terran, true, 50, 25, 0));
    data.units.push(entry(UnitTypeId::BarracksReactor, Race::Terran, true, 50, 50, 0));
    data.abilities.push(AbilityData {
        id: BUILD_BARRACKS,
        is_building: true,
        footprint_radius: Some(3 * SCALE / 2),
        cast_range: None,
    });
    data.abilities.push(AbilityData {
        id: TRAIN_MARINE,
        is_building: false,
        footprint_radius: None,
        cast_range: None,
    });
    data.upgrades.push(UpgradeData {
        id: UpgradeId::TerranBuildingArmor,
        ability: AbilityId::Other(651),
        mineral_cost: 150,
        vespene_cost: 150,
        research_time: 0,
    });
    data.unit_alias.push((UnitTypeId::Zergling, UnitTypeId::ZerglingBurrowed));
    data.tech_alias.push((UnitTypeId::CommandCenter, vec![UnitTypeId::OrbitalCommand, UnitTypeId::PlanetaryFortress]));
    data
}

fn bot() -> Bot {
    let mut state = GameState::blank(40, 40).unwrap();
    for x in 0..40 {
        for y in 0..40 {
            state.observation.raw.visibility.set((x, y), Visibility::Visible);
        }
    }
    Bot::new(GameInfo::blank(40, 40).unwrap(), rules(), state)
}

fn unit(tag: u64, t: UnitTypeId, alliance: Alliance, x: i32, y: i32) -> Unit {
    Unit::blank(tag, t, alliance, at(x, y))
}

fn observation(units: Vec<Unit>) -> Units {
    Units::from_vec(units)
}

#[test]
fn a_new_bot_knows_nothing_yet() {
    let bot = bot();
    assert_eq!(bot.game_step(), 1);
    assert!(bot.actions.is_empty());
    assert!(bot.units.all.is_empty());
    assert!(bot.expansions.is_empty());
    assert_eq!(bot.race, Race::Random);
    assert!(!bot.owned_tags.contains(1));
    assert_eq!(bot.get_expansion(), None);
}

#[test]
fn the_game_step_can_be_set() {
    let mut bot = bot();
    bot.set_game_step(4);
    assert_eq!(bot.game_step(), 4);
    assert!(!bot.game_left);
    bot.leave();
    assert!(bot.game_left);
}

#[test]
fn the_races_are_taken_from_the_players() {
    let mut bot = bot();
    bot.player_id = 2;
    bot.game_info.players = vec![
        PlayerInfo { id: 1, race_requested: Race::Random, race_actual: None },
        PlayerInfo { id: 2, race_requested: Race::Random, race_actual: Some(Race::Protoss) },
    ];
    bot.init_players();
    assert_eq!(bot.race, Race::Protoss);
    assert_eq!(bot.enemy_race, Race::Random);
    assert_eq!(bot.enemy_player_id, 0);
    bot.game_info.players[0].race_actual = Some(Race::Zerg);
    bot.game_info.players[0].race_requested = Race::Zerg;
    bot.init_players();
    assert_eq!(bot.enemy_race, Race::Zerg);
    assert_eq!(bot.enemy_player_id, 1);
}

#[test]
fn an_observation_is_taken_in_step_by_step() {
    let mut bot = bot();
    bot.enemy_race = Race::Random;
    let mut site = unit(3, UnitTypeId::Barracks, Alliance::Own, 12, 10);
    site.build_progress = 2 * SCALE / 5;
    let first = observation(vec![
        unit(1, UnitTypeId::CommandCenter, Alliance::Own, 10, 10),
        unit(2, UnitTypeId::SCV, Alliance::Own, 11, 10),
        site,
        unit(20, UnitTypeId::Zergling, Alliance::Enemy, 30, 30),
        unit(40, UnitTypeId::MineralField, Alliance::Neutral, 5, 5),
    ]);
    let events = bot.update_state(Vec::new(), first);
    assert_eq!(
        events,
        vec![
            Event::ConstructionComplete(1),
            Event::UnitCreated(2),
            Event::ConstructionStarted(3),
            Event::RandomRaceDetected(Race::Zerg),
        ]
    );
    assert_eq!(bot.enemy_race, Race::Zerg);
    assert_eq!(bot.units.my.all.tags(), vec![1, 2, 3]);
    assert_eq!(bot.units.my.townhalls.tags(), vec![1]);
    assert_eq!(bot.units.enemy.all.tags(), vec![20]);
    assert_eq!(bot.units.cached.all.tags(), vec![20]);
    assert_eq!(bot.units.mineral_fields.tags(), vec![40]);
    assert!(bot.under_construction.contains(3));
    assert_eq!(bot.enemies_current.get(UnitTypeId::Zergling), 1);

    let second = observation(vec![
        unit(1, UnitTypeId::CommandCenter, Alliance::Own, 10, 10),
        unit(3, UnitTypeId::Barracks, Alliance::Own, 12, 10),
        unit(40, UnitTypeId::MineralField, Alliance::Neutral, 5, 5),
    ]);
    let events = bot.update_state(vec![2, 20, 999], second);
    assert_eq!(
        events,
        vec![
            Event::UnitDestroyed(2, Some(Alliance::Own)),
            Event::UnitDestroyed(20, Some(Alliance::Enemy)),
            Event::ConstructionComplete(3),
        ]
    );
    assert!(!bot.owned_tags.contains(2));
    assert!(!bot.under_construction.contains(3));
    assert!(bot.units.cached.all.is_empty());
    assert_eq!(bot.state.observation.raw.dead_units, vec![2, 20, 999]);
    assert_eq!(bot.enemies_current.get(UnitTypeId::Zergling), 0);
}

#[test]
fn hits_and_first_sightings_are_those_of_the_observation_before() {
    let mut bot = bot();
    bot.state.observation.game_loop = 50;
    let mut scv = unit(2, UnitTypeId::SCV, Alliance::Own, 11, 10);
    scv.health = Some(45);
    bot.update_units(observation(vec![scv.clone(), unit(3, UnitTypeId::Marine, Alliance::Own, 1, 1)]));
    assert_eq!(bot.last_units_hits.get(2), None);
    bot.state.observation.game_loop = 60;
    scv.health = Some(30);
    bot.update_units(observation(vec![scv.clone()]));
    assert_eq!(bot.last_units_hits.get(2), Some(45));
    assert_eq!(bot.last_units_hits.get(3), None);
    assert_eq!(bot.last_units_seen.get(2), Some(60));
    assert_eq!(bot.last_units_seen.get(3), Some(60));
    assert_eq!(bot.units.my.all.get(2).unwrap().damage_taken(bot.last_units_hits.get(2)), 15);
    bot.state.observation.game_loop = 70;
    bot.update_units(observation(vec![scv]));
    assert_eq!(bot.last_units_hits.get(2), Some(30));
    assert_eq!(bot.last_units_seen.get(2), Some(60));
    assert_eq!(bot.last_units_seen.get(3), None);
    assert_eq!(remember_hits(&bot.units.all).get(2), Some(30));
    assert_eq!(remember_seen(&bot.units.all, &bot.last_units_seen, 99).get(2), Some(60));
}

#[test]
fn a_hallucination_that_was_seen_once_stays_one() {
    let mut bot = bot();
    let mut phantom = unit(20, UnitTypeId::Zergling, Alliance::Enemy, 30, 30);
    phantom.is_hallucination = true;
    bot.update_units(observation(vec![phantom]));
    assert!(bot.saved_hallucinations.contains(20));
    bot.update_units(observation(vec![
        unit(20, UnitTypeId::Zergling, Alliance::Enemy, 30, 30),
        unit(21, UnitTypeId::Zergling, Alliance::Enemy, 31, 30),
        unit(22, UnitTypeId::Marine, Alliance::Own, 1, 1),
    ]));
    assert!(bot.units.enemy.all.get(20).unwrap().is_hallucination());
    assert!(bot.units.all.get(20).unwrap().is_hallucination());
    assert!(!bot.units.enemy.all.get(21).unwrap().is_hallucination());
    assert_eq!(bot.enemies_current.get(UnitTypeId::Zergling), 1);

    let mut saved = sc2_core::tags::TagSet::new();
    saved.insert(22);
    saved.insert(21);
    let marked = mark_hallucinations(&bot.units.all, &saved);
    assert!(marked.get(21).unwrap().is_hallucination());
    assert!(!marked.get(22).unwrap().is_hallucination());
    note_hallucinations(&mut saved, &marked);
    assert!(saved.contains(20) && saved.contains(21) && saved.contains(22));
}

#[test]
fn own_units_in_reach_of_an_enemy_detector_are_revealed() {
    let mut bot = bot();
    let mut raven = unit(20, UnitTypeId::Raven, Alliance::Enemy, 10, 10);
    raven.detect_range = 11 * SCALE;
    let mut near = unit(1, UnitTypeId::Marine, Alliance::Own, 22, 10);
    near.is_cloaked = true;
    let mut far = unit(2, UnitTypeId::Marine, Alliance::Own, 22, 12);
    far.buffs = vec![BuffId::OracleRevelation];
    let further = unit(3, UnitTypeId::Marine, Alliance::Own, 23, 10);
    bot.update_units(observation(vec![raven, near.clone(), far.clone(), further.clone()]));
    // One cell of tolerance is added to the range of eleven.
    assert!(bot.units.my.all.get(1).unwrap().is_revealed());
    assert!(bot.units.all.get(1).unwrap().is_revealed());
    assert!(bot.units.my.units.get(1).unwrap().is_revealed());
    assert!(bot.units.my.all.get(2).unwrap().is_revealed());
    assert!(!bot.units.my.all.get(3).unwrap().is_revealed());
    assert!(!bot.units.enemy.all.get(20).unwrap().is_revealed());

    // Without anything of the opponent that detects, nothing is revealed.
    bot.units.cached.clear();
    bot.update_units(observation(vec![near, far, further]));
    assert!(!bot.units.my.all.get(1).unwrap().is_revealed());
    assert!(!bot.units.my.all.get(2).unwrap().is_revealed());

    let scan = Effect {
        id: EffectId::ScannerSweep,
        positions: vec![at(0, 0)],
        alliance: Alliance::Enemy,
        owner: 2,
        radius: 13 * SCALE,
    };
    let none = Units::new();
    assert!(has_any_watch(&none, &vec![scan.clone()]));
    assert!(!has_any_watch(&none, &Vec::new()));
    let all = observation(vec![unit(1, UnitTypeId::Marine, Alliance::Own, 5, 5), unit(2, UnitTypeId::Marine, Alliance::Own, 30, 30)]);
    let exposed = expose_own(&all, &none, &vec![scan]);
    assert!(exposed.get(1).unwrap().is_revealed());
    assert!(!exposed.get(2).unwrap().is_revealed());
}

#[test]
fn add_ons_and_cooldowns_are_noted() {
    let mut bot = bot();
    let mut marine = unit(1, UnitTypeId::Marine, Alliance::Own, 1, 1);
    marine.weapon_cooldown = Some(10);
    let mut other = unit(2, UnitTypeId::Marine, Alliance::Own, 2, 1);
    other.weapon_cooldown = Some(25);
    let mut enemy = unit(3, UnitTypeId::Marine, Alliance::Enemy, 3, 1);
    enemy.weapon_cooldown = Some(99);
    bot.update_units(observation(vec![
        marine.clone(),
        other,
        enemy,
        unit(4, UnitTypeId::BarracksTechLab, Alliance::Own, 4, 1),
        unit(5, UnitTypeId::BarracksReactor, Alliance::Own, 5, 1),
        unit(6, UnitTypeId::BarracksReactor, Alliance::Enemy, 6, 1),
    ]));
    assert!(bot.techlab_tags.contains(4));
    assert!(!bot.techlab_tags.contains(5));
    assert!(bot.reactor_tags.contains(5));
    assert!(!bot.reactor_tags.contains(6));
    assert_eq!(marine.max_cooldown(&bot.max_cooldowns), Some(25));
    marine.weapon_cooldown = Some(5);
    bot.update_units(observation(vec![marine.clone()]));
    assert_eq!(marine.max_cooldown(&bot.max_cooldowns), Some(25));
    assert!(!bot.techlab_tags.contains(4));
    assert_eq!(find_addons(&bot.units.all, &bot.game_data, true).contains(4), false);
    let mut list = vec![(UnitTypeId::Marine, 3)];
    raise_cooldowns(&mut list, &bot.units.all);
    assert_eq!(list, vec![(UnitTypeId::Marine, 5)]);
}

#[test]
fn the_step_is_prepared_from_the_observation() {
    let mut bot = bot();
    bot.state.observation.game_loop = 224;
    bot.state.observation.common.minerals = 350;
    bot.state.observation.common.vespene = 75;
    bot.state.observation.common.food_cap = 15;
    bot.state.observation.common.food_used = 12;
    bot.state.observation.common.food_army = 2;
    bot.state.observation.common.food_workers = 10;
    bot.prepare_step();
    assert_eq!(bot.state.observation.game_loop(), 224);
    assert_eq!(bot.time, 10 * SCALE as u64);
    assert_eq!(bot.minerals, 350);
    assert_eq!(bot.vespene, 75);
    assert_eq!(bot.supply_cap, 15);
    assert_eq!(bot.supply_used, 12);
    assert_eq!(bot.supply_left, 3);
    assert_eq!(bot.supply_army, 2);
    assert_eq!(bot.supply_workers, 10);
    bot.state.observation.common.food_used = 20;
    bot.state.observation.game_loop = 1;
    bot.prepare_step();
    assert_eq!(bot.supply_left, 0);
    assert_eq!(bot.time, 182);
}

#[test]
fn units_and_orders_are_counted() {
    let data = rules();
    let order = |ability, target| UnitOrder { ability, target, progress: 0 };
    let spot = at(20, 20);
    let mut builder = unit(1, UnitTypeId::SCV, Alliance::Own, 1, 1);
    builder.orders = vec![order(BUILD_BARRACKS, Target::Pos(spot)), order(AbilityId::MoveMove, Target::Nowhere)];
    let mut trainer = unit(2, UnitTypeId::Barracks, Alliance::Own, 5, 5);
    trainer.orders = vec![order(TRAIN_MARINE, Target::Nowhere), order(TRAIN_MARINE, Target::Nowhere)];
    let mut ordered_site = unit(3, UnitTypeId::Barracks, Alliance::Own, 20, 20);
    ordered_site.build_progress = 10;
    let mut lonely_site = unit(4, UnitTypeId::Barracks, Alliance::Own, 25, 25);
    lonely_site.build_progress = 10;
    let mut same_site = unit(5, UnitTypeId::Barracks, Alliance::Own, 25, 25);
    same_site.build_progress = 20;
    let mut phantom = unit(6, UnitTypeId::Marine, Alliance::Own, 1, 1);
    phantom.is_hallucination = true;
    phantom.orders = vec![order(AbilityId::Attack, Target::Nowhere)];
    let units = observation(vec![
        builder,
        trainer,
        ordered_site,
        lonely_site,
        same_site,
        phantom,
        unit(7, UnitTypeId::Marine, Alliance::Own, 1, 1),
        unit(8, UnitTypeId::Marine, Alliance::Own, 1, 1),
    ]);
    let (current, orders) = count_own(&units, &data);
    assert_eq!(current.get(UnitTypeId::Marine), 2);
    assert_eq!(current.get(UnitTypeId::Barracks), 1);
    assert_eq!(current.get(UnitTypeId::SCV), 1);
    assert_eq!(orders.get(TRAIN_MARINE), 2);
    assert_eq!(orders.get(AbilityId::MoveMove), 1);
    assert_eq!(orders.get(AbilityId::Attack), 0);
    // One order to build, and one barracks that rises without an order.
    assert_eq!(orders.get(BUILD_BARRACKS), 2);
}

#[test]
fn the_opponents_units_are_counted_by_type() {
    let data = rules();
    let mut site = unit(1, UnitTypeId::Hatchery, Alliance::Enemy, 1, 1);
    site.build_progress = 5;
    let mut phantom = unit(4, UnitTypeId::Zergling, Alliance::Enemy, 1, 1);
    phantom.is_hallucination = true;
    let mut egg = unit(5, UnitTypeId::Zergling, Alliance::Enemy, 1, 1);
    egg.build_progress = 5;
    let units = observation(vec![
        site,
        unit(2, UnitTypeId::Hatchery, Alliance::Enemy, 2, 2),
        unit(3, UnitTypeId::Zergling, Alliance::Enemy, 1, 1),
        phantom,
        egg,
    ]);
    let (current, ordered) = count_enemies(&units, &data);
    assert_eq!(current.get(UnitTypeId::Hatchery), 1);
    assert_eq!(ordered.get(UnitTypeId::Hatchery), 1);
    assert_eq!(current.get(UnitTypeId::Zergling), 2);
    assert_eq!(ordered.get(UnitTypeId::Zergling), 0);
}

#[test]
fn counting_goes_by_the_options() {
    let mut bot = bot();
    for _ in 0..3 {
        bot.current_units.add_one(UnitTypeId::Marine);
    }
    bot.orders.add_one(TRAIN_MARINE);
    bot.current_units.add_one(UnitTypeId::CommandCenter);
    bot.current_units.add_one(UnitTypeId::OrbitalCommand);
    bot.current_units.add_one(UnitTypeId::OrbitalCommand);
    bot.enemies_current.add_one(UnitTypeId::Zergling);
    bot.enemies_current.add_one(UnitTypeId::ZerglingBurrowed);
    bot.enemies_ordered.add_one(UnitTypeId::Hatchery);
    assert_eq!(bot.counter().count(&bot, UnitTypeId::Marine), 3);
    assert_eq!(bot.counter().ordered().count(&bot, UnitTypeId::Marine), 1);
    assert_eq!(bot.counter().all().count(&bot, UnitTypeId::Marine), 4);
    assert_eq!(bot.counter().count(&bot, UnitTypeId::CommandCenter), 1);
    assert_eq!(bot.counter().tech().count(&bot, UnitTypeId::CommandCenter), 3);
    assert_eq!(bot.counter().alias().count(&bot, UnitTypeId::CommandCenter), 1);
    assert_eq!(bot.counter().ordered().count(&bot, UnitTypeId::Other(1)), 0);
    assert_eq!(bot.enemy_counter().count(&bot, UnitTypeId::Zergling), 1);
    assert_eq!(bot.enemy_counter().alias().count(&bot, UnitTypeId::Zergling), 2);
    assert_eq!(bot.enemy_counter().ordered().count(&bot, UnitTypeId::Hatchery), 1);
    assert_eq!(bot.enemy_counter().all().count(&bot, UnitTypeId::Hatchery), 1);
    assert_eq!(bot.enemy_counter().count(&bot, UnitTypeId::Marine), 0);
    let options = CountOptions { enemies: false, completion: Completion::All, alias: UnitAlias::Tech };
    assert_eq!(bot.count(options, UnitTypeId::CommandCenter), 3);
    assert_eq!(PlacementOptions::default().max_distance, 17);
    assert_eq!(PlacementOptions::default().step, 2);
}

#[test]
fn prices_are_corrected_for_what_a_unit_is_made_from() {
    let bot = bot();
    assert_eq!(bot.get_unit_api_cost(UnitTypeId::Marine).minerals, 50);
    assert_eq!(bot.get_unit_cost(UnitTypeId::Marine).minerals, 50);
    assert_eq!(bot.get_unit_cost(UnitTypeId::Marine).supply, SCALE);
    let zergling = bot.get_unit_cost(UnitTypeId::Zergling);
    assert_eq!((zergling.minerals, zergling.vespene, zergling.supply), (50, 0, SCALE));
    let baneling = bot.get_unit_cost(UnitTypeId::Baneling);
    assert_eq!((baneling.minerals, baneling.vespene, baneling.supply), (25, 25, 0));
    let lair = bot.get_unit_cost(UnitTypeId::Lair);
    assert_eq!((lair.minerals, lair.vespene), (150, 100));
    let hatchery = bot.get_unit_cost(UnitTypeId::Hatchery);
    assert_eq!((hatchery.minerals, hatchery.supply), (275, 0));
    let transport = bot.get_unit_cost(UnitTypeId::OverlordTransport);
    assert_eq!((transport.minerals, transport.vespene), (25, 25));
    let orbital = bot.get_unit_cost(UnitTypeId::OrbitalCommand);
    assert_eq!(orbital.minerals, 150);
    assert_eq!(bot.get_unit_cost(UnitTypeId::Other(9)).minerals, 0);
}

#[test]
fn the_bot_affords_what_it_has_the_resources_for() {
    let mut bot = bot();
    bot.minerals = 50;
    bot.vespene = 0;
    bot.supply_left = 0;
    assert!(bot.can_afford(UnitTypeId::Marine, false));
    assert!(!bot.can_afford(UnitTypeId::Marine, true));
    bot.supply_left = 1;
    assert!(bot.can_afford(UnitTypeId::Marine, true));
    assert!(!bot.can_afford(UnitTypeId::Raven, false));
    bot.supply_used = 10;
    bot.subtract_resources(UnitTypeId::Marine, true);
    assert_eq!((bot.minerals, bot.supply_left, bot.supply_used), (0, 0, 11));
    bot.subtract_resources(UnitTypeId::Marine, false);
    assert_eq!((bot.minerals, bot.supply_left, bot.supply_used), (0, 0, 11));
    bot.minerals = 200;
    bot.vespene = 100;
    assert!(!bot.can_afford_upgrade(UpgradeId::TerranBuildingArmor));
    bot.vespene = 150;
    assert!(bot.can_afford_upgrade(UpgradeId::TerranBuildingArmor));
    assert_eq!(bot.get_upgrade_cost(UpgradeId::TerranBuildingArmor).vespene, 150);
    bot.subtract_upgrade_cost(UpgradeId::TerranBuildingArmor);
    assert_eq!((bot.minerals, bot.vespene), (50, 0));
    assert!(bot.can_afford_upgrade(UpgradeId::LurkerRange));
}

#[test]
fn the_progress_of_an_upgrade_is_that_of_its_order() {
    let mut bot = bot();
    let research = AbilityId::Other(651);
    assert_eq!(bot.upgrade_progress(UpgradeId::TerranBuildingArmor), 0);
    assert!(!bot.is_ordered_upgrade(UpgradeId::TerranBuildingArmor));
    let mut bay = unit(1, UnitTypeId::Barracks, Alliance::Own, 1, 1);
    bay.orders = vec![
        UnitOrder { ability: TRAIN_MARINE, target: Target::Nowhere, progress: 100 },
        UnitOrder { ability: research, target: Target::Nowhere, progress: 1234 },
    ];
    bot.units.my.structures.push(bay);
    assert_eq!(bot.upgrade_progress(UpgradeId::TerranBuildingArmor), 0);
    bot.orders.add_one(research);
    assert!(bot.is_ordered_upgrade(UpgradeId::TerranBuildingArmor));
    assert_eq!(bot.upgrade_progress(UpgradeId::TerranBuildingArmor), 1234);
    assert_eq!(bot.upgrade_progress(UpgradeId::LurkerRange), 0);
    bot.state.observation.raw.upgrades.push(UpgradeId::TerranBuildingArmor);
    assert!(bot.has_upgrade(UpgradeId::TerranBuildingArmor));
    assert_eq!(bot.upgrade_progress(UpgradeId::TerranBuildingArmor), SCALE);
    assert!(!bot.enemy_has_upgrade(UpgradeId::TerranBuildingArmor));
    bot.enemy_upgrades.push(UpgradeId::LurkerRange);
    assert!(bot.enemy_has_upgrade(UpgradeId::LurkerRange));
}

#[test]
fn the_map_is_asked_cell_by_cell() {
    let mut bot = bot();
    bot.game_info.terrain_height.set((3, 4), 255);
    bot.game_info.terrain_height.set((3, 5), 100);
    bot.game_info.placement_grid.set((3, 4), true);
    bot.game_info.pathing_grid.set((3, 5), true);
    bot.state.observation.raw.creep.set((3, 4), true);
    bot.state.observation.raw.visibility.set((3, 4), Visibility::Fogged);
    bot.state.observation.raw.visibility.set((3, 5), Visibility::Hidden);
    bot.state.observation.raw.visibility.set((3, 6), Visibility::FullHidden);
    assert_eq!(bot.get_height((3, 4)), 255);
    assert_eq!(bot.get_height((99, 4)), 0);
    assert_eq!(bot.get_height_diff((3, 4), (3, 5)), 155);
    assert_eq!(bot.get_height_diff((3, 5), (3, 4)), 155);
    assert_eq!(bot.get_z_height((3, 4)), 16 * SCALE);
    assert_eq!(bot.get_z_height((0, 0)), -16 * SCALE);
    assert_eq!(bot.get_z_height((99, 0)), 0);
    assert!(bot.is_placeable((3, 4)) && !bot.is_placeable((3, 5)) && !bot.is_placeable((40, 0)));
    assert!(bot.is_pathable((3, 5)) && !bot.is_pathable((3, 4)));
    assert!(bot.has_creep((3, 4)) && !bot.has_creep((4, 4)));
    assert!(bot.is_fogged((3, 4)) && bot.is_explored((3, 4)) && !bot.is_visible((3, 4)));
    assert!(bot.is_hidden((3, 5)) && !bot.is_explored((3, 5)));
    assert!(bot.is_full_hidden((3, 6)));
    assert!(bot.is_visible((9, 9)) && bot.is_explored((9, 9)));
    assert!(bot.is_hidden((40, 40)) && bot.is_fogged((40, 40)) && bot.is_full_hidden((40, 40)));
    assert!(!bot.is_visible((40, 40)) && !bot.is_explored((40, 40)));
}

#[test]
fn the_cells_around_a_cell_are_asked_together() {
    let mut bot = bot();
    assert!(bot.is_surround_visible((10, 10), 2));
    assert!(bot.is_surround_visible((10, 10), 0));
    bot.state.observation.raw.visibility.set((12, 12), Visibility::Fogged);
    assert!(!bot.is_surround_visible((10, 10), 2));
    assert!(bot.is_surround_visible((10, 10), 1));
    assert!(!bot.is_surround_visible((1, 10), 2));
    assert!(!bot.is_surround_visible((38, 10), 2));
    assert!(!bot.is_surround_visible((10, 10), usize::MAX));

    assert!(!bot.has_creep_around((10, 10), 0));
    for x in 8..=12 {
        for y in 8..=12 {
            bot.state.observation.raw.creep.set((x, y), true);
        }
    }
    assert!(bot.has_creep_around((10, 10), 2));
    bot.state.observation.raw.creep.set((12, 12), false);
    // The corner lies further than two cells away.
    assert!(bot.has_creep_around((10, 10), 2));
    bot.state.observation.raw.creep.set((12, 10), false);
    assert!(!bot.has_creep_around((10, 10), 2));
    assert!(bot.has_creep_around((10, 10), 1));
    assert!(!bot.has_creep_around((0, 0), 1));
}

#[test]
fn waiting_orders_become_actions() {
    let mut bot = bot();
    bot.move_camera(Point3 { x: 1, y: 2, z: 3 });
    bot.chat(String::from("gl hf"));
    bot.chat_ally(String::from("push now"));
    bot.commander.command(1, AbilityId::Attack, Target::Tag(9), false);
    bot.commander.command(2, AbilityId::Attack, Target::Tag(9), false);
    bot.commander.toggle_autocast(3, AbilityId::EffectRepair);
    bot.get_actions();
    assert_eq!(bot.actions.len(), 5);
    assert!(matches!(&bot.actions[0], Action::CameraMove(p) if p.x == 1));
    assert!(matches!(&bot.actions[1], Action::Chat(m, false) if m == "gl hf"));
    assert!(matches!(&bot.actions[2], Action::Chat(m, true) if m == "push now"));
    assert!(matches!(&bot.actions[3], Action::UnitCommand(AbilityId::Attack, Target::Tag(9), tags, false) if tags == &vec![1, 2]));
    assert!(matches!(&bot.actions[4], Action::ToggleAutocast(AbilityId::EffectRepair, tags) if tags == &vec![3]));
    assert!(bot.commander.is_empty());
    bot.get_actions();
    assert_eq!(bot.actions.len(), 5);
    bot.clear_actions();
    assert!(bot.actions.is_empty());
}

#[test]
fn the_start_is_prepared_from_the_first_observation() {
    let mut bot = bot();
    let mut info = GameInfo::blank(60, 60).unwrap();
    for x in 0..60 {
        for y in 0..60 {
            info.placement_grid.set((x, y), true);
            info.pathing_grid.set((x, y), true);
        }
    }
    info.start_locations = vec![Point2::new(50 * SCALE, 50 * SCALE)];
    bot.game_info = info;
    let mut geyser_type = UnitTypeData::new(UnitTypeId::VespeneGeyser, Race::Random);
    geyser_type.has_vespene = true;
    bot.game_data.units.push(geyser_type);
    let field = |tag: u64, x: i32, y: i32| Unit::blank(tag, UnitTypeId::MineralField, Alliance::Neutral, Point2::new(x * SCALE, y * SCALE));
    let mut townhall = Unit::blank(1, UnitTypeId::CommandCenter, Alliance::Own, Point2::new(10 * SCALE, 10 * SCALE));
    townhall.build_progress = SCALE;
    bot.update_units(observation(vec![
        townhall,
        field(100, 8, 9),
        field(101, 8, 12),
        field(102, 9, 13),
        Unit::blank(103, UnitTypeId::MineralField450, Alliance::Neutral, Point2::new(10 * SCALE, 14 * SCALE)),
        field(110, 30, 30),
        field(111, 32, 30),
        field(120, 52, 50),
        field(121, 52, 52),
    ]));
    assert_eq!(bot.prepare_start(), Ok(()));
    assert_eq!(bot.start_location, Point2::new(10 * SCALE, 10 * SCALE));
    assert_eq!(bot.enemy_start, Point2::new(50 * SCALE, 50 * SCALE));
    // The small field counts for the centre of the start, and for no base.
    assert_eq!(bot.start_center, Point2::new(45 * SCALE / 5, 58 * SCALE / 5));
    assert_eq!(bot.enemy_start_center, Point2::new(154 * SCALE / 3, 152 * SCALE / 3));
    assert_eq!(bot.expansions.len(), 3);
    assert_eq!(bot.expansions[0].center, bot.start_center);
    let own = &bot.expansions[0];
    assert_eq!((own.loc, own.alliance, own.base), (bot.start_location, Alliance::Own, Some(1)));
    assert_eq!(own.minerals.to_vec(), vec![100, 101, 102]);
    let free = &bot.expansions[1];
    assert_eq!((free.alliance, free.base), (Alliance::Neutral, None));
    let theirs = &bot.expansions[2];
    assert_eq!((theirs.loc, theirs.alliance), (bot.enemy_start, Alliance::Enemy));
    assert!(bot.ramps.all.is_empty());
    assert_eq!(bot.ramps.my, None);
    assert_eq!(bot.owned_expansions(), vec![0]);
    assert_eq!(bot.free_expansions(), vec![1]);
    assert_eq!(bot.enemy_expansions(), vec![2]);
    assert_eq!(bot.get_expansion(), Some(1));

    // Paths are asked about five cells off, away from the centre of the map.
    bot.game_info.map_center = Point2::new(30 * SCALE, 10 * SCALE);
    let asked = bot.path_questions(bot.start_location);
    assert_eq!(asked.len(), 3);
    assert_eq!(asked[0], (Point2::new(5 * SCALE, 10 * SCALE), Point2::new(5 * SCALE, 10 * SCALE)));
    assert_eq!(asked[2].0, Point2::new(5 * SCALE, 10 * SCALE));
    assert_eq!(asked[2].1, Point2::new(50 * SCALE, 50 * SCALE).towards(bot.game_info.map_center, -5 * SCALE).unwrap());
    bot.game_info.map_center = bot.start_location;
    assert_eq!(bot.path_questions(bot.start_location)[1].0, bot.start_location);

    bot.order_bases(&vec![Some(0), Some(30 * SCALE), Some(60 * SCALE)], &vec![Some(60 * SCALE), Some(30 * SCALE), None]);
    let held: Vec<Alliance> = bot.expansions.iter().map(|e| e.alliance).collect();
    assert_eq!(held, vec![Alliance::Enemy, Alliance::Own, Alliance::Neutral]);
    assert_eq!(bot.get_enemy_expansion(&vec![Some(5), Some(1), Some(9)]), Some(2));
    assert_eq!(bot.get_enemy_expansion(&vec![Some(5), Some(1), None]), None);
    assert_eq!(bot.get_enemy_expansion(&vec![]), None);
}

#[test]
fn a_start_without_room_for_a_base_fails() {
    let mut bot = bot();
    let field = |tag: u64, x: i32, y: i32| Unit::blank(tag, UnitTypeId::MineralField, Alliance::Neutral, Point2::new(x * SCALE, y * SCALE));
    bot.update_units(observation(vec![field(110, 30, 30), field(111, 32, 30)]));
    assert_eq!(
        bot.prepare_start(),
        Err(ExpansionError::NoPlacement(Point2::new(31 * SCALE + 2048, 30 * SCALE + 2048)))
    );
    assert!(bot.expansions.is_empty());
    assert!(bot.ramps.all.is_empty());
}

#[test]
fn two_minerals_far_from_both_starts_make_one_free_base() {
    let mut bot = bot();
    let mut info = GameInfo::blank(160, 160).unwrap();
    for x in 0..160 {
        for y in 0..160 {
            info.placement_grid.set((x, y), true);
            info.pathing_grid.set((x, y), true);
        }
    }
    info.start_locations = vec![Point2::new(150 * SCALE + 2048, 150 * SCALE + 2048)];
    bot.game_info = info;
    let field = |tag: u64, x: i32, y: i32| Unit::blank(tag, UnitTypeId::MineralField, Alliance::Neutral, Point2::new(x * SCALE, y * SCALE));
    let mut townhall = Unit::blank(9, UnitTypeId::CommandCenter, Alliance::Own, Point2::new(100 * SCALE + 2048, 100 * SCALE + 2048));
    townhall.build_progress = SCALE;
    bot.update_units(observation(vec![townhall, field(1, 10, 10), field(2, 12, 10)]));
    assert_eq!(bot.prepare_start(), Ok(()));
    assert_eq!(bot.expansions.len(), 1);
    let e = &bot.expansions[0];
    assert_eq!(e.loc, Point2::new(10 * SCALE + 2048, 3 * SCALE + 2048));
    assert_eq!(e.center, Point2::new(11 * SCALE + 2048, 10 * SCALE + 2048));
    assert_eq!(e.minerals.to_vec(), vec![1, 2]);
    assert_eq!((e.alliance, e.base), (Alliance::Neutral, None));
    assert!(!e.geysers.contains(1) && !e.geysers.contains(2));
    // Nothing lies near the starts, so their centres are the starts.
    assert_eq!(bot.start_center, bot.start_location);
    assert_eq!(bot.enemy_start_center, bot.enemy_start);
}

#[test]
fn a_mineral_field_that_is_gone_leaves_the_others_in_their_order() {
    let mut bot = bot();
    let mut info = GameInfo::blank(60, 60).unwrap();
    for x in 0..60 {
        for y in 0..60 {
            info.placement_grid.set((x, y), true);
        }
    }
    bot.game_info = info;
    let field = |tag: u64, x: i32, y: i32| Unit::blank(tag, UnitTypeId::MineralField, Alliance::Neutral, Point2::new(x * SCALE, y * SCALE));
    let fields = vec![field(1, 20, 20), field(2, 22, 20), field(3, 24, 20), field(4, 26, 20), field(5, 28, 20)];
    bot.update_units(observation(fields.clone()));
    assert_eq!(bot.prepare_start(), Ok(()));
    assert_eq!(bot.expansions.len(), 1);
    let loc = bot.expansions[0].loc;
    let before = bot.expansions[0].minerals.to_vec();
    assert_eq!(before.len(), 5);
    let dead = before[1];
    let left: Vec<Unit> = fields.iter().filter(|u| u.tag() != dead).cloned().collect();
    let events = bot.update_state(vec![dead], observation(left.clone()));
    assert!(events.contains(&Event::UnitDestroyed(dead, Some(Alliance::Neutral))));
    let after = bot.expansions[0].minerals.to_vec();
    assert_eq!(after, vec![before[0], before[2], before[3], before[4]]);
    let far = |tag: &u64| fields.iter().find(|u| u.tag() == *tag).unwrap().position().distance_squared(loc);
    assert!(after.windows(2).all(|w| far(&w[0]) <= far(&w[1])));
    // The first and the last leave the rest in order too.
    bot.update_state(vec![after[0], after[3]], observation(Vec::new()));
    assert_eq!(bot.expansions[0].minerals.to_vec(), vec![before[2], before[3]]);
}

#[test]
fn a_bot_by_default_has_nothing_to_send() {
    let bot = Bot::default();
    assert!(bot.commander.is_empty());
    assert!(bot.actions.is_empty());
    assert_eq!(bot.game_step(), 1);
    assert!(bot.units.all.is_empty());
    assert!(bot.expansions.is_empty());
    assert_eq!(bot.state.observation.game_loop(), 0);
}

#[test]
fn placeholders_are_told_from_structures_in_the_groups() {
    let mut bot = bot();
    let mut placeholder = unit(1, UnitTypeId::Barracks, Alliance::Own, 1, 1);
    placeholder.display_type = DisplayType::Placeholder;
    bot.update_units(observation(vec![placeholder]));
    assert_eq!(bot.units.my.placeholders.tags(), vec![1]);
    assert!(bot.units.my.structures.is_empty());
}

#[test]
fn the_upgrades_of_a_unit_are_those_of_its_owner() {
    let mut bot = bot();
    bot.state.observation.raw.upgrades = vec![UpgradeId::TerranBuildingArmor];
    bot.enemy_upgrades = vec![UpgradeId::Zerglingattackspeed, UpgradeId::LurkerRange];
    assert_eq!(bot.upgrades(), &vec![UpgradeId::TerranBuildingArmor]);
    assert_eq!(bot.enemy_upgrades(), &vec![UpgradeId::Zerglingattackspeed, UpgradeId::LurkerRange]);
    let own = unit(1, UnitTypeId::Marine, Alliance::Own, 1, 1);
    let enemy = unit(2, UnitTypeId::Zergling, Alliance::Enemy, 1, 1);
    let ally = unit(3, UnitTypeId::Marine, Alliance::Ally, 1, 1);
    assert_eq!(own.upgrades(&bot), &vec![UpgradeId::TerranBuildingArmor]);
    assert_eq!(enemy.upgrades(&bot).len(), 2);
    assert_eq!(ally.upgrades(&bot).len(), 2);
    assert!(bot.abilities_units.is_empty());
}
