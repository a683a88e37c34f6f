use sc2_core::cache::{
    find_burrowed_form, has_circumstances, is_covered, is_surround_visible, judge, resettle,
    settle, update_cache, Verdict,
};
use sc2_core::game_data::{Attribute, GameData, UnitTypeData};
use sc2_core::game_state::{Alliance, Effect, Race};
use sc2_core::geometry::{Grid, Point2, Visibility, SCALE};
use sc2_core::ids::{EffectId, UnitTypeId};
use sc2_core::unit::{DisplayType, Unit};
use sc2_core::units::{PlayerUnits, Units};

const DRONE_BURROWED: UnitTypeId = UnitTypeId::Other(117);

fn rules() -> GameData {
    let mut data = GameData::new();
    for t in [UnitTypeId::Extractor, UnitTypeId::Hatchery, UnitTypeId::SpineCrawler] {
        let mut d = UnitTypeData::new(t, Race::Zerg);
        d.attributes = vec![Attribute::Structure];
        data.units.push(d);
    }
    for t in [UnitTypeId::Drone, UnitTypeId::Zergling, UnitTypeId::Larva, UnitTypeId::OverlordTransport] {
        data.units.push(UnitTypeData::new(t, Race::Zerg));
    }
    data.burrowed_ids.push((UnitTypeId::Drone, DRONE_BURROWED));
    data.burrowed_ids.push((UnitTypeId::Zergling, UnitTypeId::ZerglingBurrowed));
    data.burrowed_ids.push((UnitTypeId::Larva, UnitTypeId::Other(1)));
    data
}

fn enemy(tag: u64, t: UnitTypeId, x: i32, y: i32) -> Unit {
    let mut u = Unit::blank(tag, t, Alliance::Enemy, Point2::new(x * SCALE + 2048, y * SCALE + 2048));
    u.radius = SCALE / 2;
    u
}

fn own(tag: u64, t: UnitTypeId, x: i32, y: i32) -> Unit {
    Unit::blank(tag, t, Alliance::Own, Point2::new(x * SCALE + 2048, y * SCALE + 2048))
}

fn all_seen() -> Grid<Visibility> {
    Grid::filled(40, 40, Visibility::Visible).unwrap()
}

fn group(units: Vec<Unit>) -> Units {
    Units::from_vec(units)
}

fn enemies(all: Vec<Unit>, data: &GameData) -> PlayerUnits {
    sc2_core::classify::sort_player(&group(all), data, Alliance::Enemy)
}

#[test]
fn a_worker_that_vanishes_next_to_a_ready_extractor_is_taken_to_have_burrowed() {
    let data = rules();
    let seen = all_seen();
    let no_watchers = Units::new();
    let no_effects: Vec<Effect> = Vec::new();
    let mut cached = PlayerUnits::new();
    let extractor = {
        let mut e = enemy(2, UnitTypeId::Extractor, 11, 10);
        e.radius = SCALE;
        e
    };

    // The drone is seen beside the extractor.
    let first = enemies(vec![enemy(1, UnitTypeId::Drone, 10, 10), extractor.clone()], &data);
    update_cache(&mut cached, &first, &no_watchers, &no_effects, false, true, &seen, &data);
    assert_eq!(cached.all.tags(), vec![1, 2]);
    assert_eq!(cached.workers.tags(), vec![1]);
    assert_eq!(cached.all.get(1).unwrap().display_type(), DisplayType::Visible);

    // It is gone while its cell is still seen and nothing detects there.
    let second = enemies(vec![extractor.clone()], &data);
    update_cache(&mut cached, &second, &no_watchers, &no_effects, false, true, &seen, &data);
    assert_eq!(cached.all.tags(), vec![1, 2]);
    for units in [&cached.all, &cached.units, &cached.workers] {
        let drone = units.get(1).unwrap();
        assert_eq!(drone.type_id(), DRONE_BURROWED);
        assert_eq!(drone.display_type(), DisplayType::Hidden);
        assert!(drone.is_burrowed());
        assert!(drone.is_cloaked());
        assert!(!drone.is_revealed());
        assert!(!drone.can_be_attacked());
    }

    // It stays so as long as nothing tells otherwise.
    update_cache(&mut cached, &second, &no_watchers, &no_effects, false, true, &seen, &data);
    let drone = cached.all.get(1).unwrap();
    assert_eq!(drone.type_id(), DRONE_BURROWED);
    assert!(!drone.can_be_attacked());
}

#[test]
fn a_hidden_unit_is_dropped_when_a_detector_reaches_its_place() {
    let data = rules();
    let seen = all_seen();
    let no_effects: Vec<Effect> = Vec::new();
    let mut cached = PlayerUnits::new();
    let mut hidden = enemy(1, DRONE_BURROWED, 10, 10);
    hidden.display_type = DisplayType::Hidden;
    hidden.is_burrowed = true;
    hidden.is_cloaked = true;
    cached.all.push(hidden.clone());
    cached.units.push(hidden);
    let none = PlayerUnits::new();
    let mut raven = own(50, UnitTypeId::Raven, 12, 10);
    raven.detect_range = 11 * SCALE;
    let watchers = group(vec![raven]);
    update_cache(&mut cached, &none, &watchers, &no_effects, false, true, &seen, &data);
    assert!(cached.all.is_empty());
    assert!(cached.units.is_empty());
}

#[test]
fn a_unit_that_vanishes_without_a_reason_is_dropped() {
    let data = rules();
    let seen = all_seen();
    let no_watchers = Units::new();
    let no_effects: Vec<Effect> = Vec::new();
    let mut cached = PlayerUnits::new();
    let first = enemies(vec![enemy(1, UnitTypeId::Zergling, 10, 10), enemy(3, UnitTypeId::Drone, 20, 20)], &data);
    update_cache(&mut cached, &first, &no_watchers, &no_effects, false, true, &seen, &data);
    assert_eq!(cached.all.tags(), vec![1, 3]);
    update_cache(&mut cached, &PlayerUnits::new(), &no_watchers, &no_effects, false, true, &seen, &data);
    assert!(cached.all.is_empty());
    assert!(cached.units.is_empty());
    assert!(cached.workers.is_empty());
}

#[test]
fn a_unit_whose_place_is_not_seen_is_kept_as_hidden() {
    let data = rules();
    let mut seen = all_seen();
    let no_watchers = Units::new();
    let no_effects: Vec<Effect> = Vec::new();
    let mut cached = PlayerUnits::new();
    let first = enemies(vec![enemy(1, UnitTypeId::Zergling, 10, 10)], &data);
    update_cache(&mut cached, &first, &no_watchers, &no_effects, false, true, &seen, &data);
    seen.set((10, 10), Visibility::Fogged);
    update_cache(&mut cached, &PlayerUnits::new(), &no_watchers, &no_effects, false, true, &seen, &data);
    let z = cached.all.get(1).unwrap();
    assert_eq!(z.display_type(), DisplayType::Hidden);
    assert_eq!(z.type_id(), UnitTypeId::Zergling);
    assert!(!z.is_cloaked());
    // Seen again, it is as the observation shows it.
    seen.set((10, 10), Visibility::Visible);
    update_cache(&mut cached, &first, &no_watchers, &no_effects, false, true, &seen, &data);
    assert_eq!(cached.all.get(1).unwrap().display_type(), DisplayType::Visible);
}

#[test]
fn a_burrowed_unit_that_is_seen_beyond_the_bots_detectors_counts_as_cloaked() {
    let data = rules();
    let seen = all_seen();
    let no_effects: Vec<Effect> = Vec::new();
    let mut burrowed = enemy(1, UnitTypeId::ZerglingBurrowed, 10, 10);
    burrowed.is_burrowed = true;
    burrowed.is_cloaked = true;
    burrowed.is_revealed = true;
    let current = enemies(vec![burrowed.clone()], &data);

    let mut cached = PlayerUnits::new();
    update_cache(&mut cached, &current, &Units::new(), &no_effects, false, true, &seen, &data);
    let z = cached.all.get(1).unwrap();
    assert_eq!(z.display_type(), DisplayType::Hidden);
    assert!(z.is_cloaked() && !z.is_revealed());
    assert!(!z.can_be_attacked());
    assert_eq!(z.type_id(), UnitTypeId::ZerglingBurrowed);

    let mut raven = own(50, UnitTypeId::Raven, 12, 10);
    raven.detect_range = 11 * SCALE;
    let mut cached = PlayerUnits::new();
    update_cache(&mut cached, &current, &group(vec![raven]), &no_effects, false, true, &seen, &data);
    let z = cached.all.get(1).unwrap();
    assert_eq!(z.display_type(), DisplayType::Visible);
    assert!(z.is_revealed());
    assert!(z.can_be_attacked());
}

#[test]
fn the_structures_of_a_terran_stay_remembered_and_those_of_others_do_not() {
    let mut data = rules();
    let mut barracks = UnitTypeData::new(UnitTypeId::Barracks, Race::Terran);
    barracks.attributes = vec![Attribute::Structure];
    data.units.push(barracks);
    let mut seen = all_seen();
    seen.set((5, 5), Visibility::Fogged);
    let no_watchers = Units::new();
    let no_effects: Vec<Effect> = Vec::new();
    let first = enemies(vec![enemy(1, UnitTypeId::Barracks, 5, 5)], &data);

    let mut cached = PlayerUnits::new();
    update_cache(&mut cached, &first, &no_watchers, &no_effects, true, false, &seen, &data);
    update_cache(&mut cached, &PlayerUnits::new(), &no_watchers, &no_effects, true, false, &seen, &data);
    // A structure on the ground that is missing is dropped, whoever built it.
    assert!(cached.all.is_empty());
    assert!(cached.structures.is_empty());

    let mut cached = PlayerUnits::new();
    update_cache(&mut cached, &first, &no_watchers, &no_effects, false, false, &seen, &data);
    assert_eq!(cached.structures.tags(), vec![1]);
    update_cache(&mut cached, &PlayerUnits::new(), &no_watchers, &no_effects, false, false, &seen, &data);
    assert!(cached.structures.is_empty());
}

#[test]
fn a_detector_covers_up_to_its_range_and_both_radii() {
    let mut u = enemy(1, UnitTypeId::Zergling, 0, 0);
    u.position = Point2::new(0, 0);
    u.radius = SCALE;
    let mut raven = own(2, UnitTypeId::Raven, 0, 0);
    raven.radius = SCALE;
    raven.detect_range = 10 * SCALE;
    raven.position = Point2::new(12 * SCALE, 0);
    let no_effects: Vec<Effect> = Vec::new();
    assert!(is_covered(&u, &group(vec![raven.clone()]), &no_effects, Alliance::Own, 0));
    raven.position = Point2::new(12 * SCALE + 1, 0);
    assert!(!is_covered(&u, &group(vec![raven.clone()]), &no_effects, Alliance::Own, 0));
    assert!(is_covered(&u, &group(vec![raven.clone()]), &no_effects, Alliance::Own, 1));
    let mut marine = raven.clone();
    marine.type_id = UnitTypeId::Marine;
    marine.position = Point2::new(0, 0);
    assert!(!is_covered(&u, &group(vec![marine]), &no_effects, Alliance::Own, 0));
}

#[test]
fn a_scan_of_the_right_side_covers_up_to_its_radius() {
    let mut u = enemy(1, UnitTypeId::Zergling, 0, 0);
    u.position = Point2::new(0, 0);
    u.radius = SCALE;
    let scan = |alliance, id, x: i32| Effect {
        id,
        positions: vec![Point2::new(100 * SCALE, 0), Point2::new(x, 0)],
        alliance,
        owner: 1,
        radius: 13 * SCALE,
    };
    let none = Units::new();
    assert!(is_covered(&u, &none, &vec![scan(Alliance::Own, EffectId::ScannerSweep, 14 * SCALE)], Alliance::Own, 0));
    assert!(!is_covered(&u, &none, &vec![scan(Alliance::Own, EffectId::ScannerSweep, 14 * SCALE + 1)], Alliance::Own, 0));
    assert!(!is_covered(&u, &none, &vec![scan(Alliance::Enemy, EffectId::ScannerSweep, 0)], Alliance::Own, 0));
    assert!(is_covered(&u, &none, &vec![scan(Alliance::Enemy, EffectId::ScannerSweep, 0)], Alliance::Enemy, 0));
    assert!(!is_covered(&u, &none, &vec![scan(Alliance::Own, EffectId::PsiStormPersistent, 0)], Alliance::Own, 0));
}

#[test]
fn the_surroundings_speak_for_a_drone_at_a_site_or_a_unit_at_a_transport() {
    let drone = enemy(1, UnitTypeId::Drone, 10, 10);
    let mut site = enemy(2, UnitTypeId::SpineCrawler, 11, 10);
    site.build_progress = 409;
    let none = Units::new();
    assert!(has_circumstances(&drone, &group(vec![site.clone()]), &none));
    site.build_progress = 410;
    assert!(!has_circumstances(&drone, &group(vec![site.clone()]), &none));
    site.type_id = UnitTypeId::Extractor;
    site.build_progress = SCALE;
    assert!(has_circumstances(&drone, &group(vec![site.clone()]), &none));
    site.build_progress = SCALE - 1;
    assert!(!has_circumstances(&drone, &group(vec![site.clone()]), &none));
    site.build_progress = SCALE;
    site.position = Point2::new(12 * SCALE + 2049, 10 * SCALE + 2048);
    assert!(!has_circumstances(&drone, &group(vec![site.clone()]), &none));
    site.position = Point2::new(12 * SCALE + 2048, 10 * SCALE + 2048);
    assert!(has_circumstances(&drone, &group(vec![site.clone()]), &none));
    // A zergling is not a drone.
    let zergling = enemy(3, UnitTypeId::Zergling, 10, 10);
    assert!(!has_circumstances(&zergling, &group(vec![site]), &none));

    let larva = enemy(4, UnitTypeId::Larva, 10, 10);
    let mut carrier = enemy(5, UnitTypeId::OverlordTransport, 12, 10);
    assert!(has_circumstances(&larva, &none, &group(vec![carrier.clone()])));
    carrier.build_progress = 0;
    assert!(!has_circumstances(&larva, &none, &group(vec![carrier.clone()])));
    carrier.build_progress = SCALE;
    carrier.type_id = UnitTypeId::Overlord;
    assert!(!has_circumstances(&larva, &none, &group(vec![carrier])));
}

#[test]
fn the_cells_around_must_all_be_seen() {
    let mut seen = all_seen();
    let p = Point2::new(10 * SCALE + 5, 10 * SCALE + 5);
    assert!(is_surround_visible(&seen, p));
    seen.set((12, 8), Visibility::Fogged);
    assert!(!is_surround_visible(&seen, p));
    seen.set((12, 8), Visibility::Visible);
    seen.set((13, 10), Visibility::Hidden);
    assert!(is_surround_visible(&seen, p));
    assert!(!is_surround_visible(&seen, Point2::new(SCALE, 10 * SCALE)));
    assert!(!is_surround_visible(&seen, Point2::new(38 * SCALE, 10 * SCALE)));
    assert!(is_surround_visible(&seen, Point2::new(37 * SCALE, 2 * SCALE)));
}

#[test]
fn the_verdict_follows_what_is_seen() {
    let data = rules();
    let mut seen = all_seen();
    let none = Units::new();
    let no_effects: Vec<Effect> = Vec::new();
    let drone = enemy(1, UnitTypeId::Drone, 10, 10);
    let extractor = enemy(2, UnitTypeId::Extractor, 11, 10);
    let sites = group(vec![extractor.clone()]);
    let verdict = |u: &Unit, current: &Units, zerg: bool, seen: &Grid<Visibility>| {
        judge(u, current, &none, &no_effects, &sites, &none, zerg, seen, &data)
    };
    assert_eq!(verdict(&drone, &group(vec![drone.clone()]), true, &seen), Verdict::Seen);
    assert_eq!(verdict(&drone, &none, true, &seen), Verdict::Burrowed(DRONE_BURROWED));
    assert_eq!(verdict(&drone, &none, false, &seen), Verdict::Evicted);
    assert_eq!(verdict(&extractor, &none, true, &seen), Verdict::Evicted);
    let mut flying = drone.clone();
    flying.is_flying = true;
    assert_eq!(verdict(&flying, &none, true, &seen), Verdict::Evicted);
    let mut snapshot = drone.clone();
    snapshot.display_type = DisplayType::Snapshot;
    assert_eq!(verdict(&snapshot, &none, true, &seen), Verdict::Evicted);
    snapshot.is_burrowed = true;
    assert_eq!(verdict(&snapshot, &none, true, &seen), Verdict::Unchanged);
    seen.set((8, 8), Visibility::Fogged);
    assert_eq!(verdict(&drone, &none, true, &seen), Verdict::Evicted);
    seen.set((10, 10), Visibility::Fogged);
    assert_eq!(verdict(&drone, &none, true, &seen), Verdict::Hidden);
    assert_eq!(verdict(&extractor, &none, true, &seen), Verdict::Evicted);
}

#[test]
fn settling_changes_what_the_verdict_says_and_nothing_else() {
    let mut u = enemy(1, UnitTypeId::Drone, 3, 4);
    u.is_revealed = true;
    u.health = Some(40);
    let s = settle(&u, Verdict::Burrowed(DRONE_BURROWED));
    assert_eq!(s.type_id(), DRONE_BURROWED);
    assert!(s.is_burrowed() && s.is_cloaked() && !s.is_revealed());
    assert_eq!(s.display_type(), DisplayType::Hidden);
    assert_eq!(s.health(), Some(40));
    assert_eq!(s.position(), u.position());
    let s = settle(&u, Verdict::Cloaked);
    assert_eq!(s.type_id(), UnitTypeId::Drone);
    assert!(!s.is_burrowed() && s.is_cloaked() && !s.is_revealed());
    let s = settle(&u, Verdict::Hidden);
    assert_eq!(s.display_type(), DisplayType::Hidden);
    assert!(s.is_revealed() && !s.is_cloaked());
    for v in [Verdict::Seen, Verdict::Unchanged, Verdict::Evicted] {
        let s = settle(&u, v);
        assert_eq!(s.display_type(), DisplayType::Visible);
        assert!(s.is_revealed());
    }
}

#[test]
fn resettling_a_group_goes_by_the_unit_that_is_remembered_under_the_tag() {
    let data = rules();
    let seen = all_seen();
    let none = Units::new();
    let no_effects: Vec<Effect> = Vec::new();
    let all = group(vec![enemy(1, UnitTypeId::Zergling, 10, 10), enemy(2, UnitTypeId::Zergling, 12, 12)]);
    let current = group(vec![enemy(2, UnitTypeId::Zergling, 12, 12)]);
    let sub = group(vec![enemy(2, UnitTypeId::Zergling, 0, 0), enemy(1, UnitTypeId::Zergling, 0, 0), enemy(9, UnitTypeId::Zergling, 0, 0)]);
    let left = resettle(&sub, &all, &current, &none, &no_effects, &none, &none, true, &seen, &data);
    assert_eq!(left.tags(), vec![2, 9]);
}

#[test]
fn the_burrowed_form_is_that_of_the_first_entry() {
    let mut data = rules();
    data.burrowed_ids.push((UnitTypeId::Drone, UnitTypeId::Other(5)));
    assert_eq!(find_burrowed_form(&data.burrowed_ids, UnitTypeId::Drone), Some(DRONE_BURROWED));
    assert_eq!(find_burrowed_form(&data.burrowed_ids, UnitTypeId::Roach), None);
}
