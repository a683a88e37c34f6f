use sc2_core::classify::{
    belongs_to_neutral, belongs_to_player, classify, pick_neutral, pick_player, NeutralGroup,
    PlayerGroup,
};
use sc2_core::game_data::{Attribute, GameData, UnitTypeData};
use sc2_core::game_state::{Alliance, Race};
use sc2_core::geometry::Point2;
use sc2_core::ids::UnitTypeId;
use sc2_core::unit::{DisplayType, Unit};
use sc2_core::units::{PlayerUnits, Units};

fn rules() -> GameData {
    let mut data = GameData::new();
    for t in [
        UnitTypeId::CommandCenter,
        UnitTypeId::OrbitalCommandFlying,
        UnitTypeId::Barracks,
        UnitTypeId::Refinery,
        UnitTypeId::Hatchery,
        UnitTypeId::Extractor,
        UnitTypeId::BarracksTechLab,
    ] {
        let mut d = UnitTypeData::new(t, Race::Terran);
        d.attributes = vec![Attribute::Structure];
        data.units.push(d);
    }
    for t in [UnitTypeId::SCV, UnitTypeId::Marine, UnitTypeId::Drone, UnitTypeId::Larva, UnitTypeId::Zergling] {
        data.units.push(UnitTypeData::new(t, Race::Terran));
    }
    data.inhibitor_ids.push(UnitTypeId::Other(1900));
    data
}

fn observation() -> Units {
    let spots = [
        (1, UnitTypeId::CommandCenter, Alliance::Own),
        (2, UnitTypeId::SCV, Alliance::Own),
        (3, UnitTypeId::Marine, Alliance::Own),
        (4, UnitTypeId::Barracks, Alliance::Own),
        (5, UnitTypeId::Refinery, Alliance::Own),
        (6, UnitTypeId::OrbitalCommandFlying, Alliance::Own),
        (7, UnitTypeId::Larva, Alliance::Own),
        (10, UnitTypeId::Hatchery, Alliance::Enemy),
        (11, UnitTypeId::Drone, Alliance::Enemy),
        (12, UnitTypeId::Zergling, Alliance::Enemy),
        (13, UnitTypeId::Extractor, Alliance::Enemy),
        (14, UnitTypeId::Larva, Alliance::Enemy),
        (20, UnitTypeId::MineralField, Alliance::Neutral),
        (21, UnitTypeId::RichMineralField750, Alliance::Neutral),
        (22, UnitTypeId::VespeneGeyser, Alliance::Neutral),
        (23, UnitTypeId::XelNagaTower, Alliance::Neutral),
        (24, UnitTypeId::Other(1900), Alliance::Neutral),
        (25, UnitTypeId::Other(500), Alliance::Neutral),
        (30, UnitTypeId::Marine, Alliance::Ally),
    ];
    let mut units = Units::new();
    for (tag, t, a) in spots {
        units.push(Unit::blank(tag, t, a, Point2::new(tag as i32, 0)));
    }
    let mut placeholder = Unit::blank(8, UnitTypeId::Barracks, Alliance::Own, Point2::new(8, 0));
    placeholder.display_type = DisplayType::Placeholder;
    units.push(placeholder);
    let mut enemy_placeholder = Unit::blank(15, UnitTypeId::Hatchery, Alliance::Enemy, Point2::new(15, 0));
    enemy_placeholder.display_type = DisplayType::Placeholder;
    units.push(enemy_placeholder);
    units
}

#[test]
fn own_units_are_sorted_into_their_groups() {
    let data = rules();
    let units = classify(observation(), PlayerUnits::new(), &data);
    assert_eq!(units.my.all.tags(), vec![1, 2, 3, 4, 5, 6, 7, 8]);
    assert_eq!(units.my.units.tags(), vec![2, 3, 7]);
    assert_eq!(units.my.structures.tags(), vec![1, 4, 5, 6]);
    assert_eq!(units.my.townhalls.tags(), vec![1, 6]);
    assert_eq!(units.my.workers.tags(), vec![2]);
    assert_eq!(units.my.gas_buildings.tags(), vec![5]);
    assert_eq!(units.my.larvas.tags(), vec![7]);
    assert_eq!(units.my.placeholders.tags(), vec![8]);
}

#[test]
fn enemy_units_are_sorted_into_their_groups() {
    let data = rules();
    let units = classify(observation(), PlayerUnits::new(), &data);
    assert_eq!(units.enemy.all.tags(), vec![10, 11, 12, 13, 14, 15]);
    assert_eq!(units.enemy.units.tags(), vec![11, 12, 14]);
    assert_eq!(units.enemy.structures.tags(), vec![10, 13, 15]);
    assert_eq!(units.enemy.townhalls.tags(), vec![10, 15]);
    assert_eq!(units.enemy.workers.tags(), vec![11]);
    assert_eq!(units.enemy.gas_buildings.tags(), vec![13]);
    assert_eq!(units.enemy.larvas.tags(), vec![14]);
    assert!(units.enemy.placeholders.is_empty());
}

#[test]
fn neutral_units_are_sorted_by_type() {
    let data = rules();
    let units = classify(observation(), PlayerUnits::new(), &data);
    assert_eq!(units.mineral_fields.tags(), vec![20, 21]);
    assert_eq!(units.vespene_geysers.tags(), vec![22]);
    assert_eq!(units.resources.tags(), vec![20, 21, 22]);
    assert_eq!(units.watchtowers.tags(), vec![23]);
    assert_eq!(units.inhibitor_zones.tags(), vec![24]);
    assert_eq!(units.destructables.tags(), vec![25]);
}

#[test]
fn every_unit_stays_among_all_units_and_allies_are_in_no_group() {
    let data = rules();
    let units = classify(observation(), PlayerUnits::new(), &data);
    assert_eq!(units.all.len(), 21);
    assert!(units.all.contains_tag(30));
    assert!(!units.my.all.contains_tag(30));
    assert!(!units.enemy.all.contains_tag(30));
    assert!(!units.destructables.contains_tag(30));
}

#[test]
fn the_tags_of_all_own_units_are_those_of_the_groups_together() {
    let data = rules();
    let units = classify(observation(), PlayerUnits::new(), &data);
    let mut together: Vec<u64> = units.my.units.tags();
    together.extend(units.my.structures.tags());
    together.extend(units.my.placeholders.tags());
    together.sort();
    let mut all = units.my.all.tags();
    all.sort();
    assert_eq!(together, all);
    for group in [&units.my.townhalls, &units.my.gas_buildings] {
        for tag in group.tags() {
            assert!(units.my.structures.contains_tag(tag));
        }
    }
    for group in [&units.my.workers, &units.my.larvas] {
        for tag in group.tags() {
            assert!(units.my.units.contains_tag(tag));
        }
    }
    for tag in units.my.all.tags() {
        assert!(units.all.contains_tag(tag));
    }
}

#[test]
fn what_is_remembered_is_carried_over() {
    let data = rules();
    let mut cached = PlayerUnits::new();
    cached.all.push(Unit::blank(99, UnitTypeId::Zergling, Alliance::Enemy, Point2::new(0, 0)));
    let units = classify(observation(), cached, &data);
    assert_eq!(units.cached.all.tags(), vec![99]);
}

#[test]
fn a_unit_of_an_unknown_type_is_no_structure() {
    let data = rules();
    let mut all = Units::new();
    all.push(Unit::blank(1, UnitTypeId::Other(4242), Alliance::Own, Point2::new(0, 0)));
    let units = classify(all, PlayerUnits::new(), &data);
    assert_eq!(units.my.units.tags(), vec![1]);
    assert!(units.my.structures.is_empty());
}

#[test]
fn picking_one_group_gives_what_sorting_gives() {
    let data = rules();
    let all = observation();
    assert_eq!(pick_player(&all, &data, Alliance::Own, PlayerGroup::Townhalls).tags(), vec![1, 6]);
    assert_eq!(pick_player(&all, &data, Alliance::Enemy, PlayerGroup::Workers).tags(), vec![11]);
    assert_eq!(pick_player(&all, &data, Alliance::Ally, PlayerGroup::All).tags(), vec![30]);
    assert_eq!(pick_neutral(&all, &data, NeutralGroup::Watchtowers).tags(), vec![23]);
    let tower = all.get(23).unwrap();
    assert!(belongs_to_neutral(tower, &data, NeutralGroup::Watchtowers));
    assert!(!belongs_to_neutral(tower, &data, NeutralGroup::Destructables));
    let scv = all.get(2).unwrap();
    assert!(belongs_to_player(scv, &data, Alliance::Own, PlayerGroup::Workers));
    assert!(!belongs_to_player(scv, &data, Alliance::Enemy, PlayerGroup::Workers));
    assert!(!belongs_to_neutral(scv, &data, NeutralGroup::Destructables));
}
