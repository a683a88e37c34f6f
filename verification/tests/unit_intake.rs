use sc2_core::action::{Point3, Target};
use sc2_core::game_data::{Attribute, GameData, UnitTypeData};
use sc2_core::game_state::{Alliance, Race};
use sc2_core::geometry::{Grid, Point2, Visibility, SCALE};
use sc2_core::ids::{AbilityId, BuffId, UnitTypeId};
use sc2_core::tags::{TagMap, TagSet};
use sc2_core::unit::{
    CloakState, DisplayType, RawOrder, RawPassenger, RawUnit, SnapshotError, Unit, UnitOrder,
    OBSERVER_DETECT_RANGE, OBSERVER_SIEGED_DETECT_RANGE,
};

fn seen_map(width: usize, height: usize) -> Grid<Visibility> {
    Grid::filled(width, height, Visibility::Visible).unwrap()
}

fn report(tag: u64, unit_type: UnitTypeId, x: i32, y: i32) -> RawUnit {
    RawUnit::blank(
        tag,
        Some(unit_type),
        Alliance::Enemy,
        Point3 { x: x * SCALE, y: y * SCALE, z: 0 },
    )
}

#[test]
fn a_plain_report_is_taken_in_as_it_is() {
    let mut raw = report(7, UnitTypeId::Marine, 3, 4);
    raw.health = Some(45);
    raw.shield = None;
    raw.owner = 2;
    raw.radius = 1536;
    let u = Unit::from_raw(&raw, &seen_map(10, 10)).unwrap();
    assert_eq!(u.tag(), 7);
    assert_eq!(u.type_id(), UnitTypeId::Marine);
    assert_eq!(u.alliance(), Alliance::Enemy);
    assert_eq!(u.position(), Point2::new(3 * SCALE, 4 * SCALE));
    assert_eq!(u.position3d(), Point3 { x: 3 * SCALE, y: 4 * SCALE, z: 0 });
    assert_eq!(u.display_type(), DisplayType::Visible);
    assert_eq!(u.health(), Some(45));
    assert_eq!(u.shield(), None);
    assert_eq!(u.owner(), 2);
    assert_eq!(u.radius(), 1536);
    assert!(!u.is_cloaked());
    assert!(!u.is_revealed());
    assert!(u.is_ready());
}

#[test]
fn a_burrowed_unit_counts_as_cloaked_and_not_detected() {
    let mut raw = report(1, UnitTypeId::Roach, 2, 2);
    raw.is_burrowed = true;
    raw.cloak = CloakState::CloakedDetected;
    let u = Unit::from_raw(&raw, &seen_map(5, 5)).unwrap();
    assert!(u.is_burrowed());
    assert!(u.is_cloaked());
    assert!(!u.is_revealed());
    assert!(!u.can_be_attacked());
    assert!(u.is_invisible());

    raw.cloak = CloakState::NotCloaked;
    let u = Unit::from_raw(&raw, &seen_map(5, 5)).unwrap();
    assert!(u.is_cloaked());
    assert!(!u.is_revealed());
}

#[test]
fn the_cloak_of_a_unit_above_ground_is_taken_from_the_report() {
    let mut raw = report(1, UnitTypeId::Other(55), 2, 2);
    let map = seen_map(5, 5);
    raw.cloak = CloakState::CloakedUnknown;
    let u = Unit::from_raw(&raw, &map).unwrap();
    assert!(!u.is_cloaked() && !u.is_revealed() && u.can_be_attacked());
    raw.cloak = CloakState::Cloaked;
    let u = Unit::from_raw(&raw, &map).unwrap();
    assert!(u.is_cloaked() && !u.is_revealed() && !u.can_be_attacked());
    raw.cloak = CloakState::CloakedAllied;
    let u = Unit::from_raw(&raw, &map).unwrap();
    assert!(u.is_cloaked() && !u.is_revealed());
    raw.cloak = CloakState::CloakedDetected;
    let u = Unit::from_raw(&raw, &map).unwrap();
    assert!(u.is_cloaked() && u.is_revealed() && u.can_be_attacked());
}

#[test]
fn a_unit_reported_as_seen_on_a_cell_that_is_not_seen_is_a_snapshot() {
    let mut map = seen_map(5, 5);
    map.set((2, 3), Visibility::Fogged);
    let raw = report(1, UnitTypeId::Marine, 2, 3);
    assert_eq!(Unit::from_raw(&raw, &map).unwrap().display_type(), DisplayType::Snapshot);
    let raw = report(1, UnitTypeId::Marine, 3, 3);
    assert_eq!(Unit::from_raw(&raw, &map).unwrap().display_type(), DisplayType::Visible);
    // Off the map nothing is seen.
    let raw = report(1, UnitTypeId::Marine, 9, 9);
    assert_eq!(Unit::from_raw(&raw, &map).unwrap().display_type(), DisplayType::Snapshot);
}

#[test]
fn other_display_types_are_kept_whatever_the_map_says() {
    let map = Grid::filled(5, 5, Visibility::Hidden).unwrap();
    for kind in [DisplayType::Snapshot, DisplayType::Hidden, DisplayType::Placeholder] {
        let mut raw = report(1, UnitTypeId::Marine, 2, 3);
        raw.display_type = kind;
        assert_eq!(Unit::from_raw(&raw, &map).unwrap().display_type(), kind);
    }
}

#[test]
fn a_report_without_a_known_type_is_refused() {
    let mut raw = report(42, UnitTypeId::Marine, 1, 1);
    raw.unit_type = None;
    assert_eq!(
        Unit::from_raw(&raw, &seen_map(5, 5)).err(),
        Some(SnapshotError::UnknownUnitType(42))
    );
}

#[test]
fn a_passenger_without_a_known_type_makes_the_report_refused() {
    let mut raw = report(42, UnitTypeId::Medivac, 1, 1);
    let known = RawPassenger {
        tag: 5,
        health: 10 * SCALE,
        health_max: 45 * SCALE,
        shield: 0,
        shield_max: 0,
        energy: 0,
        energy_max: 0,
        unit_type: Some(UnitTypeId::Marine),
    };
    raw.passengers = vec![known];
    let u = Unit::from_raw(&raw, &seen_map(5, 5)).unwrap();
    assert_eq!(u.passengers().len(), 1);
    assert_eq!(u.passengers()[0].tag, 5);
    assert_eq!(u.passengers()[0].type_id, UnitTypeId::Marine);
    assert_eq!(u.passengers()[0].health, 10 * SCALE);

    let mut unknown = known;
    unknown.unit_type = None;
    raw.passengers = vec![known, unknown];
    assert_eq!(
        Unit::from_raw(&raw, &seen_map(5, 5)).err(),
        Some(SnapshotError::UnknownUnitType(42))
    );
}

#[test]
fn buffs_that_are_not_known_are_left_out() {
    let mut raw = report(1, UnitTypeId::Marine, 1, 1);
    raw.buff_ids = vec![27, 9999, 18, 309];
    let u = Unit::from_raw(&raw, &seen_map(5, 5)).unwrap();
    assert_eq!(u.buffs().to_vec(), vec![BuffId::Stimpack, BuffId::GuardianShield]);
    assert!(u.has_buff(BuffId::Stimpack));
    assert!(!u.has_buff(BuffId::StimpackMarauder));
    assert!(u.has_any_buff(&[BuffId::Null, BuffId::GuardianShield]));
    assert!(!u.has_any_buff(&[BuffId::Null]));
}

#[test]
fn orders_with_an_ability_that_is_not_known_are_left_out() {
    let mut raw = report(1, UnitTypeId::SCV, 1, 1);
    raw.orders = vec![
        RawOrder { ability: None, target: Target::Nowhere, progress: 0 },
        RawOrder { ability: Some(AbilityId::MoveMove), target: Target::Tag(9), progress: 100 },
        RawOrder { ability: Some(AbilityId::Stop), target: Target::Nowhere, progress: 0 },
    ];
    let u = Unit::from_raw(&raw, &seen_map(5, 5)).unwrap();
    assert_eq!(
        u.orders().to_vec(),
        vec![
            UnitOrder { ability: AbilityId::MoveMove, target: Target::Tag(9), progress: 100 },
            UnitOrder { ability: AbilityId::Stop, target: Target::Nowhere, progress: 0 },
        ]
    );
}

#[test]
fn observers_detect_at_their_known_ranges() {
    let map = seen_map(5, 5);
    let mut raw = report(1, UnitTypeId::Observer, 1, 1);
    raw.detect_range = 5;
    assert_eq!(Unit::from_raw(&raw, &map).unwrap().detect_range(), OBSERVER_DETECT_RANGE);
    assert_eq!(OBSERVER_DETECT_RANGE, 11 * SCALE);
    raw.unit_type = Some(UnitTypeId::ObserverSiegeMode);
    assert_eq!(Unit::from_raw(&raw, &map).unwrap().detect_range(), OBSERVER_SIEGED_DETECT_RANGE);
    assert_eq!(OBSERVER_SIEGED_DETECT_RANGE, 13 * SCALE + 3 * SCALE / 4);
    raw.unit_type = Some(UnitTypeId::Raven);
    assert_eq!(Unit::from_raw(&raw, &map).unwrap().detect_range(), 5);
}

#[test]
fn unknown_numbers_stay_unknown() {
    let raw = report(1, UnitTypeId::Marine, 1, 1);
    let u = Unit::from_raw(&raw, &seen_map(5, 5)).unwrap();
    assert_eq!(u.health(), None);
    assert_eq!(u.hits(), None);
    assert_eq!(u.hits_max(), None);
    assert_eq!(u.health_percentage(), None);
    assert_eq!(u.cargo_left(), None);
    assert_eq!(u.weapon_cooldown(), None);
}

#[test]
fn zero_is_a_number_like_any_other() {
    let mut raw = report(1, UnitTypeId::Marine, 1, 1);
    raw.health = Some(0);
    raw.health_max = Some(45);
    raw.shield = Some(0);
    let u = Unit::from_raw(&raw, &seen_map(5, 5)).unwrap();
    assert_eq!(u.health(), Some(0));
    assert_eq!(u.hits(), Some(0));
    assert_eq!(u.health_percentage(), Some(0));
}

#[test]
fn hits_add_health_shield_and_the_barrier_of_an_immortal() {
    let mut u = Unit::blank(1, UnitTypeId::Other(83), Alliance::Own, Point2::new(0, 0));
    u.health = Some(200);
    u.shield = Some(100);
    u.health_max = Some(200);
    u.shield_max = Some(100);
    assert_eq!(u.hits(), Some(300));
    assert_eq!(u.hits_max(), Some(300));
    assert_eq!(u.hits_percentage(), Some(SCALE as u64));
    u.buffs.push(BuffId::ImmortalOverload);
    assert_eq!(u.hits(), Some(400));
    u.health = None;
    assert_eq!(u.hits(), Some(200));
    u.shield = None;
    assert_eq!(u.hits(), None);
    u.health = Some(u32::MAX);
    assert_eq!(u.hits(), Some(u32::MAX));
}

#[test]
fn shares_are_in_parts_of_the_scale() {
    let mut u = Unit::blank(1, UnitTypeId::Marine, Alliance::Own, Point2::new(0, 0));
    u.health = Some(9);
    u.health_max = Some(45);
    assert_eq!(u.health_percentage(), Some(819));
    u.health_max = Some(0);
    assert_eq!(u.health_percentage(), None);
    u.energy = Some(50);
    u.energy_max = Some(200);
    assert_eq!(u.energy_percentage(), Some(1024));
    u.shield = Some(1);
    u.shield_max = Some(3);
    assert_eq!(u.shield_percentage(), Some(1365));
}

#[test]
fn damage_taken_is_the_loss_of_hits() {
    let mut u = Unit::blank(1, UnitTypeId::Marine, Alliance::Own, Point2::new(0, 0));
    u.health = Some(30);
    assert_eq!(u.damage_taken(Some(45)), 15);
    assert!(u.is_attacked(Some(45)));
    assert_eq!(u.damage_taken(Some(30)), 0);
    assert!(!u.is_attacked(Some(30)));
    assert_eq!(u.damage_taken(Some(20)), 0);
    assert_eq!(u.damage_taken(None), 0);
    assert!(!u.is_attacked(None));
    u.health = None;
    assert_eq!(u.damage_taken(Some(45)), 0);
    assert!(u.is_attacked(Some(45)));
}

#[test]
fn cargo_left_is_what_is_not_taken() {
    let mut u = Unit::blank(1, UnitTypeId::Medivac, Alliance::Own, Point2::new(0, 0));
    u.cargo_space_max = Some(8);
    u.cargo_space_taken = Some(3);
    assert_eq!(u.cargo_left(), Some(5));
    assert!(u.has_cargo());
    u.cargo_space_taken = Some(9);
    assert_eq!(u.cargo_left(), None);
    u.cargo_space_taken = Some(0);
    assert!(!u.has_cargo());
    u.cargo_space_taken = None;
    assert_eq!(u.cargo_left(), None);
    assert!(!u.has_cargo());
}

#[test]
fn readiness_follows_the_progress_of_construction() {
    let mut u = Unit::blank(1, UnitTypeId::Barracks, Alliance::Own, Point2::new(0, 0));
    assert!(u.is_ready());
    assert!(u.is_almost_ready());
    u.build_progress = SCALE - 1;
    assert!(!u.is_ready());
    assert!(u.is_almost_ready());
    u.build_progress = 3892;
    assert!(u.is_almost_ready());
    u.build_progress = 3891;
    assert!(!u.is_almost_ready());
}

#[test]
fn detectors_are_told_by_type_progress_and_power() {
    let mut u = Unit::blank(1, UnitTypeId::Raven, Alliance::Own, Point2::new(0, 0));
    u.build_progress = 0;
    assert!(u.is_detector());
    u.type_id = UnitTypeId::MissileTurret;
    assert!(!u.is_detector());
    u.build_progress = 3892;
    assert!(u.is_detector());
    u.type_id = UnitTypeId::PhotonCannon;
    assert!(!u.is_detector());
    u.is_powered = true;
    assert!(u.is_detector());
    u.type_id = UnitTypeId::Marine;
    assert!(!u.is_detector());
}

#[test]
fn what_the_rules_say_of_a_type_is_found_by_the_type() {
    let mut data = GameData::new();
    let mut barracks = UnitTypeData::new(UnitTypeId::Barracks, Race::Terran);
    barracks.attributes = vec![Attribute::Armored, Attribute::Structure];
    barracks.name = String::from("Barracks");
    barracks.armor = 1;
    barracks.mineral_cost = 150;
    data.units.push(barracks);
    let mut second = UnitTypeData::new(UnitTypeId::Barracks, Race::Zerg);
    second.armor = 9;
    data.units.push(second);

    let u = Unit::blank(1, UnitTypeId::Barracks, Alliance::Own, Point2::new(0, 0));
    assert!(u.is_structure(&data));
    assert!(u.is_armored(&data));
    assert!(!u.is_light(&data));
    assert_eq!(u.race(&data), Race::Terran);
    assert_eq!(u.armor(&data), 1);
    assert_eq!(u.name(&data), "Barracks");
    assert_eq!(u.cost(&data).minerals, 150);

    let marine = Unit::blank(2, UnitTypeId::Marine, Alliance::Own, Point2::new(0, 0));
    assert!(!marine.is_structure(&data));
    assert_eq!(marine.race(&data), Race::Random);
    assert_eq!(marine.armor(&data), 0);
    assert_eq!(marine.name(&data), "");
}

#[test]
fn a_copy_of_a_unit_holds_what_the_unit_holds() {
    let mut u = Unit::blank(1, UnitTypeId::Marine, Alliance::Own, Point2::new(5, 6));
    u.buffs = vec![BuffId::Stimpack];
    u.orders = vec![UnitOrder { ability: AbilityId::Attack, target: Target::Tag(3), progress: 7 }];
    u.health = Some(12);
    let c = u.clone();
    assert_eq!(c.tag(), 1);
    assert_eq!(c.position(), Point2::new(5, 6));
    assert_eq!(c.buffs().to_vec(), vec![BuffId::Stimpack]);
    assert_eq!(c.orders().to_vec(), u.orders().to_vec());
    assert_eq!(c.health(), Some(12));
}

#[test]
fn add_ons_are_told_by_the_tags_of_the_bots_add_ons() {
    let mut u = Unit::blank(1, UnitTypeId::Barracks, Alliance::Own, Point2::new(0, 0));
    let mut labs = TagSet::new();
    labs.insert(77);
    let reactors = TagSet::new();
    assert!(!u.has_addon());
    assert!(!u.has_techlab(&labs));
    u.addon_tag = Some(77);
    assert!(u.has_addon());
    assert!(u.has_techlab(&labs));
    assert!(!u.has_reactor(&reactors));
}

#[test]
fn a_sleeping_unit_wakes_at_the_step_that_was_set() {
    let u = Unit::blank(1, UnitTypeId::Marine, Alliance::Own, Point2::new(0, 0));
    let mut frames = TagMap::new();
    assert!(!u.is_sleeping(&frames, 10));
    u.sleep(&mut frames, 10, 5);
    assert_eq!(frames.get(1), Some(15));
    assert!(u.is_sleeping(&frames, 14));
    assert!(!u.is_sleeping(&frames, 15));
    u.sleep(&mut frames, u32::MAX, 5);
    assert_eq!(frames.get(1), Some(u32::MAX));
}

#[test]
fn time_alive_counts_from_the_first_sighting() {
    let u = Unit::blank(1, UnitTypeId::Marine, Alliance::Own, Point2::new(0, 0));
    let mut seen = TagMap::new();
    assert_eq!(u.time_alive(&seen, 100), 0);
    seen.insert(1, 40);
    assert_eq!(u.time_alive(&seen, 100), 60);
    assert_eq!(u.time_alive(&seen, 30), 0);
}
