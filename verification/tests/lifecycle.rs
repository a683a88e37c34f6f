use sc2_core::burial::{bury, bury_all, drop_mineral};
use sc2_core::events::{event_of, lifecycle_events};
use sc2_core::expansion::Expansion;
use sc2_core::game_data::{Attribute, GameData, UnitTypeData};
use sc2_core::game_state::{Alliance, Event, Race};
use sc2_core::geometry::{Point2, SCALE};
use sc2_core::ids::UnitTypeId;
use sc2_core::tags::{OrderedTags, TagMap, TagSet};
use sc2_core::unit::{DisplayType, Unit};
use sc2_core::units::{PlayerUnits, Units};

fn rules() -> GameData {
    let mut data = GameData::new();
    for t in [UnitTypeId::Barracks, UnitTypeId::SupplyDepot, UnitTypeId::KD8Charge] {
        let mut d = UnitTypeData::new(t, Race::Terran);
        d.attributes = vec![Attribute::Structure];
        data.units.push(d);
    }
    data.units.push(UnitTypeData::new(UnitTypeId::Marine, Race::Terran));
    data
}

fn structure(tag: u64, progress: i32) -> Unit {
    let mut u = Unit::blank(tag, UnitTypeId::Barracks, Alliance::Own, Point2::new(0, 0));
    u.build_progress = progress;
    u
}

fn marine(tag: u64) -> Unit {
    Unit::blank(tag, UnitTypeId::Marine, Alliance::Own, Point2::new(0, 0))
}

fn base(minerals: &[u64]) -> Expansion {
    let mut tags = OrderedTags::new();
    for m in minerals {
        tags.insert(*m);
    }
    Expansion {
        loc: Point2::new(0, 0),
        center: Point2::new(0, 0),
        minerals: tags,
        geysers: TagSet::new(),
        alliance: Alliance::Neutral,
        base: None,
    }
}

#[test]
fn a_structure_that_appears_under_construction_is_started_and_later_finished() {
    let data = rules();
    let mut owned = TagSet::new();
    let mut building = TagSet::new();

    let mut first = Units::new();
    first.push(structure(1, 2 * SCALE / 5));
    let events = lifecycle_events(&first, &data, &mut owned, &mut building);
    assert_eq!(events, vec![Event::ConstructionStarted(1)]);
    assert!(owned.contains(1));
    assert!(building.contains(1));

    let mut second = Units::new();
    second.push(structure(1, SCALE));
    let events = lifecycle_events(&second, &data, &mut owned, &mut building);
    assert_eq!(events, vec![Event::ConstructionComplete(1)]);
    assert!(owned.contains(1));
    assert!(!building.contains(1));

    let events = lifecycle_events(&second, &data, &mut owned, &mut building);
    assert!(events.is_empty());
}

#[test]
fn a_structure_that_is_still_being_built_gives_no_event_again() {
    let data = rules();
    let mut owned = TagSet::new();
    let mut building = TagSet::new();
    let mut units = Units::new();
    units.push(structure(1, 100));
    assert_eq!(lifecycle_events(&units, &data, &mut owned, &mut building).len(), 1);
    let mut units = Units::new();
    units.push(structure(1, 3000));
    assert!(lifecycle_events(&units, &data, &mut owned, &mut building).is_empty());
    assert!(building.contains(1));
}

#[test]
fn new_units_are_told_in_the_order_of_the_units() {
    let data = rules();
    let mut owned = TagSet::new();
    owned.insert(5);
    let mut building = TagSet::new();
    let mut units = Units::new();
    units.push(marine(3));
    units.push(structure(4, SCALE));
    units.push(marine(5));
    units.push(structure(6, 0));
    let events = lifecycle_events(&units, &data, &mut owned, &mut building);
    assert_eq!(
        events,
        vec![
            Event::UnitCreated(3),
            Event::ConstructionComplete(4),
            Event::ConstructionStarted(6),
        ]
    );
    for tag in [3, 4, 5, 6] {
        assert!(owned.contains(tag));
    }
    assert!(building.contains(6));
    assert!(!building.contains(4));
}

#[test]
fn placeholders_and_charges_are_owned_without_an_event() {
    let data = rules();
    let mut owned = TagSet::new();
    let mut building = TagSet::new();
    let mut units = Units::new();
    let mut placeholder = structure(1, 0);
    placeholder.display_type = DisplayType::Placeholder;
    units.push(placeholder);
    units.push(Unit::blank(2, UnitTypeId::KD8Charge, Alliance::Own, Point2::new(0, 0)));
    assert!(lifecycle_events(&units, &data, &mut owned, &mut building).is_empty());
    assert!(owned.contains(1) && owned.contains(2));
    assert!(!building.contains(1) && !building.contains(2));
}

#[test]
fn no_structure_is_finished_that_was_not_started_or_new() {
    let data = rules();
    let mut owned = TagSet::new();
    let mut building = TagSet::new();
    let mut started = std::collections::HashSet::new();
    let ticks: Vec<Vec<Unit>> = vec![
        vec![structure(1, 10), marine(2)],
        vec![structure(1, 2000), structure(3, SCALE), marine(2)],
        vec![structure(1, SCALE), structure(3, SCALE), structure(4, 1)],
        vec![structure(1, SCALE), structure(4, SCALE)],
    ];
    for tick in ticks {
        let mut units = Units::new();
        for u in tick {
            units.push(u);
        }
        let was_owned: Vec<bool> = units.tags().iter().map(|t| owned.contains(*t)).collect();
        let tags = units.tags();
        let events = lifecycle_events(&units, &data, &mut owned, &mut building);
        for e in events {
            match e {
                Event::ConstructionStarted(t) => {
                    started.insert(t);
                }
                Event::ConstructionComplete(t) => {
                    let place = tags.iter().position(|x| *x == t).unwrap();
                    assert!(started.contains(&t) || !was_owned[place]);
                }
                _ => {}
            }
        }
    }
    assert!(started.contains(&1) && started.contains(&4) && !started.contains(&3));
}

#[test]
fn the_event_of_one_unit_follows_from_what_was_owned() {
    let data = rules();
    let mut owned = TagSet::new();
    let mut building = TagSet::new();
    assert_eq!(event_of(&marine(1), &data, &owned, &building), Some(Event::UnitCreated(1)));
    owned.insert(1);
    assert_eq!(event_of(&marine(1), &data, &owned, &building), None);
    owned.insert(2);
    assert_eq!(event_of(&structure(2, SCALE), &data, &owned, &building), None);
    building.insert(2);
    assert_eq!(
        event_of(&structure(2, SCALE), &data, &owned, &building),
        Some(Event::ConstructionComplete(2))
    );
    assert_eq!(event_of(&structure(2, SCALE - 1), &data, &owned, &building), None);
}

#[test]
fn a_dead_unit_is_the_bots_the_opponents_or_nobodys() {
    let mut owned = TagSet::new();
    owned.insert(1);
    let mut building = TagSet::new();
    building.insert(1);
    let mut frames = TagMap::new();
    frames.insert(1, 5);
    let mut hits = TagMap::new();
    hits.insert(1, 45);
    let mut seen = TagMap::new();
    seen.insert(1, 0);
    let mut saved = TagSet::new();
    saved.insert(4);
    let mut cached = PlayerUnits::new();
    cached.all.push(Unit::blank(2, UnitTypeId::Zergling, Alliance::Enemy, Point2::new(0, 0)));
    cached.units.push(Unit::blank(2, UnitTypeId::Zergling, Alliance::Enemy, Point2::new(0, 0)));
    cached.structures.push(Unit::blank(5, UnitTypeId::Hatchery, Alliance::Enemy, Point2::new(0, 0)));
    let mut expansions = vec![base(&[30, 31]), base(&[31, 32])];

    let dead = vec![1, 2, 31, 77, 4, 5, 1];
    let events = bury_all(
        &dead, false, &mut owned, &mut building, &mut frames, &mut hits, &mut seen, &mut saved,
        &mut cached, &mut expansions,
    );
    assert_eq!(
        events,
        vec![
            Event::UnitDestroyed(1, Some(Alliance::Own)),
            Event::UnitDestroyed(2, Some(Alliance::Enemy)),
            Event::UnitDestroyed(31, Some(Alliance::Neutral)),
            Event::UnitDestroyed(4, Some(Alliance::Enemy)),
        ]
    );
    assert!(!owned.contains(1));
    assert!(!building.contains(1));
    assert_eq!(frames.get(1), None);
    assert_eq!(hits.get(1), None);
    assert_eq!(seen.get(1), None);
    assert!(cached.all.is_empty());
    assert!(cached.units.is_empty());
    assert!(!saved.contains(4));
    // The structures of an opponent who is not terran are not looked at.
    assert_eq!(cached.structures.tags(), vec![5]);
    assert_eq!(expansions[0].minerals.to_vec(), vec![30]);
    assert_eq!(expansions[1].minerals.to_vec(), vec![31, 32]);
}

#[test]
fn the_structures_of_a_terran_opponent_are_forgotten_when_they_die() {
    let mut owned = TagSet::new();
    let mut building = TagSet::new();
    let mut frames = TagMap::new();
    let mut hits = TagMap::new();
    let mut seen = TagMap::new();
    let mut saved = TagSet::new();
    let mut cached = PlayerUnits::new();
    cached.structures.push(Unit::blank(5, UnitTypeId::Barracks, Alliance::Enemy, Point2::new(0, 0)));
    cached.townhalls.push(Unit::blank(6, UnitTypeId::CommandCenter, Alliance::Enemy, Point2::new(0, 0)));
    let mut expansions = Vec::new();
    let fate = bury(
        5, true, &mut owned, &mut building, &mut frames, &mut hits, &mut seen, &mut saved,
        &mut cached, &mut expansions,
    );
    assert_eq!(fate, Some(Alliance::Enemy));
    assert!(cached.structures.is_empty());
    let fate = bury(
        6, true, &mut owned, &mut building, &mut frames, &mut hits, &mut seen, &mut saved,
        &mut cached, &mut expansions,
    );
    assert_eq!(fate, Some(Alliance::Enemy));
    assert!(cached.townhalls.is_empty());
    let fate = bury(
        6, true, &mut owned, &mut building, &mut frames, &mut hits, &mut seen, &mut saved,
        &mut cached, &mut expansions,
    );
    assert_eq!(fate, None);
}

#[test]
fn an_own_unit_that_is_also_remembered_counts_as_own() {
    let mut owned = TagSet::new();
    owned.insert(1);
    let mut building = TagSet::new();
    let mut frames = TagMap::new();
    let mut hits = TagMap::new();
    let mut seen = TagMap::new();
    let mut saved = TagSet::new();
    let mut cached = PlayerUnits::new();
    cached.all.push(Unit::blank(1, UnitTypeId::Zergling, Alliance::Enemy, Point2::new(0, 0)));
    let mut expansions = vec![base(&[1])];
    let fate = bury(
        1, false, &mut owned, &mut building, &mut frames, &mut hits, &mut seen, &mut saved,
        &mut cached, &mut expansions,
    );
    assert_eq!(fate, Some(Alliance::Own));
    assert_eq!(cached.all.tags(), vec![1]);
    assert_eq!(expansions[0].minerals.to_vec(), vec![1]);
}

#[test]
fn a_mineral_field_is_dropped_from_the_first_base_that_has_it() {
    let mut expansions = vec![base(&[1, 2, 3]), base(&[2])];
    assert!(drop_mineral(&mut expansions, 2));
    assert_eq!(expansions[0].minerals.to_vec(), vec![1, 3]);
    assert_eq!(expansions[1].minerals.to_vec(), vec![2]);
    assert!(drop_mineral(&mut expansions, 2));
    assert!(expansions[1].minerals.is_empty());
    assert!(!drop_mineral(&mut expansions, 2));
}
