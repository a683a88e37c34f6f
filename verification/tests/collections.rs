use sc2_core::container::Container;
use sc2_core::counter::Counter;
use sc2_core::game_data::GameData;
use sc2_core::game_state::Alliance;
use sc2_core::geometry::{Point2, SCALE};
use sc2_core::ids::{AbilityId, UnitTypeId, UpgradeId};
use sc2_core::order::sorted_order;
use sc2_core::tags::{OrderedTags, TagMap, TagSet};
use sc2_core::unit::{DisplayType, Unit};
use sc2_core::units::{AllUnits, PlayerUnits, Units};

fn marine(tag: u64, x: i32, y: i32) -> Unit {
    Unit::blank(tag, UnitTypeId::Marine, Alliance::Own, Point2::new(x * SCALE, y * SCALE))
}

fn squad(tags: &[u64]) -> Units {
    let mut units = Units::new();
    for (i, tag) in tags.iter().enumerate() {
        units.push(marine(*tag, i as i32, 0));
    }
    units
}

#[test]
fn a_new_collection_is_empty() {
    let units = Units::new();
    assert!(units.is_empty());
    assert_eq!(units.len(), 0);
    assert!(units.first().is_none());
    assert!(units.get(1).is_none());
    assert!(units.get_index(0).is_none());
    assert!(!units.contains_tag(1));
    assert_eq!(units.tags(), Vec::<u64>::new());
}

#[test]
fn units_stand_in_the_order_in_which_they_were_pushed() {
    let units = squad(&[5, 3, 9]);
    assert_eq!(units.len(), 3);
    assert_eq!(units.tags(), vec![5, 3, 9]);
    assert_eq!(units.first().unwrap().tag(), 5);
    assert_eq!(units.get_index(2).unwrap().tag(), 9);
    assert!(units.get_index(3).is_none());
    assert!(units.contains_tag(3));
    assert!(!units.contains_tag(4));
    assert_eq!(units.get(9).unwrap().position(), Point2::new(2 * SCALE, 0));
}

#[test]
fn pushing_a_tag_again_replaces_the_unit_in_its_place() {
    let mut units = squad(&[5, 3, 9]);
    let mut other = marine(3, 7, 7);
    other.health = Some(11);
    let old = units.push(other).unwrap();
    assert_eq!(old.tag(), 3);
    assert_eq!(old.health(), None);
    assert_eq!(units.tags(), vec![5, 3, 9]);
    assert_eq!(units.get(3).unwrap().health(), Some(11));
    assert_eq!(units.get_index(1).unwrap().position(), Point2::new(7 * SCALE, 7 * SCALE));
    assert!(units.push(marine(4, 0, 0)).is_none());
    assert_eq!(units.tags(), vec![5, 3, 9, 4]);
}

#[test]
fn removing_a_unit_leaves_the_others_in_their_order() {
    let mut units = squad(&[1, 2, 3, 4]);
    let gone = units.remove(2).unwrap();
    assert_eq!(gone.tag(), 2);
    assert_eq!(units.tags(), vec![1, 3, 4]);
    assert!(units.remove(2).is_none());
    assert_eq!(units.tags(), vec![1, 3, 4]);
    assert_eq!(units.remove(1).unwrap().tag(), 1);
    assert_eq!(units.tags(), vec![3, 4]);
    assert_eq!(units.get_index(0).unwrap().tag(), 3);
    assert_eq!(units.remove(4).unwrap().tag(), 4);
    assert_eq!(units.tags(), vec![3]);
    assert!(units.contains_tag(3) && !units.contains_tag(4));
}

#[test]
fn pop_takes_the_last_unit() {
    let mut units = squad(&[1, 2]);
    assert_eq!(units.pop().unwrap().tag(), 2);
    assert_eq!(units.pop().unwrap().tag(), 1);
    assert!(units.pop().is_none());
    assert!(units.is_empty());
}

#[test]
fn clear_removes_every_unit() {
    let mut units = squad(&[1, 2, 3]);
    units.clear();
    assert!(units.is_empty());
    assert!(!units.contains_tag(1));
}

#[test]
fn extend_pushes_each_unit_of_the_other_collection() {
    let mut units = squad(&[1, 2, 3]);
    let mut other = Units::new();
    let mut changed = marine(2, 9, 9);
    changed.health = Some(1);
    other.push(changed);
    other.push(marine(8, 0, 0));
    units.extend(&other);
    assert_eq!(units.tags(), vec![1, 2, 3, 8]);
    assert_eq!(units.get(2).unwrap().health(), Some(1));
    assert_eq!(other.tags(), vec![2, 8]);
}

#[test]
fn a_duplicate_holds_the_same_units() {
    let units = squad(&[4, 5]);
    let copy = units.duplicate();
    assert_eq!(copy.tags(), vec![4, 5]);
    assert_eq!(copy.get(5).unwrap().position(), units.get(5).unwrap().position());
}

#[test]
fn select_keeps_the_marked_units_in_their_order() {
    let units = squad(&[1, 2, 3, 4]);
    let picked = units.select(&vec![false, true, false, true]);
    assert_eq!(picked.tags(), vec![2, 4]);
    assert_eq!(units.select(&vec![false; 4]).len(), 0);
}

#[test]
fn from_vec_keeps_the_last_unit_of_a_tag_in_the_place_of_the_first() {
    let mut late = marine(1, 5, 5);
    late.health = Some(3);
    let units = Units::from_vec(vec![marine(1, 0, 0), marine(2, 0, 0), late]);
    assert_eq!(units.tags(), vec![1, 2]);
    assert_eq!(units.get(1).unwrap().health(), Some(3));
}

#[test]
fn filters_keep_what_meets_the_condition() {
    let mut units = Units::new();
    units.push(marine(1, 0, 0));
    let mut flyer = Unit::blank(2, UnitTypeId::Medivac, Alliance::Own, Point2::new(10 * SCALE, 0));
    flyer.is_flying = true;
    units.push(flyer);
    let mut site = Unit::blank(3, UnitTypeId::Barracks, Alliance::Own, Point2::new(3 * SCALE, 4 * SCALE));
    site.build_progress = 100;
    site.display_type = DisplayType::Snapshot;
    units.push(site);

    assert_eq!(units.of_type(UnitTypeId::Marine).tags(), vec![1]);
    assert_eq!(units.exclude_type(UnitTypeId::Marine).tags(), vec![2, 3]);
    assert_eq!(units.of_types(&vec![UnitTypeId::Marine, UnitTypeId::Barracks]).tags(), vec![1, 3]);
    assert_eq!(units.exclude_types(&vec![UnitTypeId::Marine, UnitTypeId::Barracks]).tags(), vec![2]);
    assert_eq!(units.flying().tags(), vec![2]);
    assert_eq!(units.ground().tags(), vec![1, 3]);
    assert_eq!(units.ready().tags(), vec![1, 2]);
    assert_eq!(units.not_ready().tags(), vec![3]);
    assert_eq!(units.visible().tags(), vec![1, 2]);
    assert_eq!(units.idle().tags(), vec![1, 2, 3]);
    assert_eq!(units.closer(5 * SCALE as i64, Point2::new(0, 0)).tags(), vec![1, 3]);
    assert_eq!(units.further(5 * SCALE as i64, Point2::new(0, 0)).tags(), vec![2]);
    assert_eq!(units.filter(|u: &Unit| u.tag() % 2 == 1).tags(), vec![1, 3]);
}

#[test]
fn the_other_form_of_a_type_counts_with_the_type() {
    let mut data = GameData::new();
    data.unit_alias.push((UnitTypeId::Zergling, UnitTypeId::ZerglingBurrowed));
    let mut units = Units::new();
    units.push(Unit::blank(1, UnitTypeId::Zergling, Alliance::Own, Point2::new(0, 0)));
    units.push(Unit::blank(2, UnitTypeId::ZerglingBurrowed, Alliance::Own, Point2::new(0, 0)));
    units.push(Unit::blank(3, UnitTypeId::Roach, Alliance::Own, Point2::new(0, 0)));
    assert_eq!(units.of_type_including_alias(UnitTypeId::Zergling, &data).tags(), vec![1, 2]);
    assert_eq!(units.of_type_including_alias(UnitTypeId::Roach, &data).tags(), vec![3]);
    assert_eq!(units.of_type_including_alias(UnitTypeId::ZerglingBurrowed, &data).tags(), vec![2]);
}

#[test]
fn find_tags_gives_the_units_in_the_order_of_the_tags() {
    let units = squad(&[1, 2, 3, 4]);
    assert_eq!(units.find_tags(&[4, 9, 2, 4]).tags(), vec![4, 2]);
    assert_eq!(units.find_tags(&[]).len(), 0);
}

#[test]
fn the_nearest_and_the_furthest_unit_are_found() {
    let mut units = Units::new();
    units.push(marine(1, 5, 0));
    units.push(marine(2, 1, 0));
    units.push(marine(3, -1, 0));
    units.push(marine(4, 9, 0));
    units.push(marine(5, -9, 0));
    let origin = Point2::new(0, 0);
    assert_eq!(units.closest(origin).unwrap().tag(), 2);
    assert_eq!(units.closest_index(origin), Some(1));
    assert_eq!(units.furthest(origin).unwrap().tag(), 5);
    let one = SCALE as i128;
    assert_eq!(units.closest_distance_squared(origin), Some(one * one));
    assert_eq!(units.furthest_distance_squared(origin), Some(81 * one * one));
    assert!(Units::new().closest(origin).is_none());
    assert_eq!(Units::new().furthest_distance_squared(origin), None);
}

#[test]
fn the_center_is_the_mean_of_the_positions() {
    let mut units = Units::new();
    assert_eq!(units.center(), None);
    units.push(marine(1, 0, 0));
    units.push(marine(2, 4, 2));
    units.push(marine(3, 5, -5));
    assert_eq!(units.center(), Some(Point2::new(3 * SCALE, -SCALE)));
    units.push(Unit::blank(4, UnitTypeId::Marine, Alliance::Own, Point2::new(-1, -1)));
    // (36863, -12289) / 4, rounded down
    assert_eq!(units.center(), Some(Point2::new(9215, -3073)));
}

#[test]
fn units_are_sorted_by_a_key_and_keep_their_order_among_equals() {
    let mut units = Units::new();
    for (tag, hp) in [(1u64, 30u32), (2, 10), (3, 30), (4, 5), (5, 10)] {
        let mut u = marine(tag, 0, 0);
        u.health = Some(hp);
        units.push(u);
    }
    let by_health = |u: &Unit| u.health().unwrap_or(0) as i64;
    assert_eq!(units.sorted(by_health).tags(), vec![4, 2, 5, 1, 3]);
    assert_eq!(units.tags(), vec![1, 2, 3, 4, 5]);
    assert_eq!(units.min_index(by_health), Some(3));
    assert_eq!(units.max_index(by_health), Some(2));
    assert_eq!(units.sum(by_health), 85);
    units.sort(by_health);
    assert_eq!(units.tags(), vec![4, 2, 5, 1, 3]);
    assert_eq!(Units::new().min_index(by_health), None);
}

#[test]
fn sorted_order_is_stable() {
    assert_eq!(sorted_order(&vec![3, 1, 2, 1, 3, 0]), vec![5, 1, 3, 2, 0, 4]);
    assert_eq!(sorted_order(&vec![]), Vec::<usize>::new());
    assert_eq!(sorted_order(&vec![i128::MAX, i128::MIN]), vec![1, 0]);
}

#[test]
fn the_groups_start_empty_and_clear_keeps_what_is_remembered() {
    let mut all = AllUnits::new();
    assert!(all.all.is_empty());
    all.all.push(marine(1, 0, 0));
    all.my.all.push(marine(1, 0, 0));
    all.resources.push(marine(9, 0, 0));
    all.cached.all.push(marine(7, 0, 0));
    all.clear();
    assert!(all.all.is_empty());
    assert!(all.my.all.is_empty());
    assert!(all.resources.is_empty());
    assert_eq!(all.cached.all.tags(), vec![7]);
    let mut player = PlayerUnits::new();
    player.workers.push(marine(1, 0, 0));
    player.clear();
    assert!(player.workers.is_empty());
}

#[test]
fn a_tag_set_holds_each_tag_once() {
    let mut set = TagSet::new();
    assert!(!set.contains(1));
    assert!(set.insert(1));
    assert!(!set.insert(1));
    assert!(set.contains(1));
    assert!(set.remove(1));
    assert!(!set.remove(1));
    set.insert(2);
    set.clear();
    assert!(!set.contains(2));
}

#[test]
fn a_tag_map_keeps_the_last_number_for_a_tag() {
    let mut map = TagMap::new();
    assert_eq!(map.get(1), None);
    map.insert(1, 10);
    map.insert(1, 20);
    assert_eq!(map.get(1), Some(20));
    assert!(map.remove(1));
    assert!(!map.remove(1));
    map.insert(3, 1);
    map.clear();
    assert_eq!(map.get(3), None);
}

#[test]
fn ordered_tags_keep_the_order_of_insertion() {
    let mut tags = OrderedTags::new();
    assert!(tags.is_empty());
    assert!(tags.insert(5));
    assert!(tags.insert(2));
    assert!(!tags.insert(5));
    assert!(tags.insert(9));
    assert_eq!(tags.to_vec(), vec![5, 2, 9]);
    assert_eq!(tags.len(), 3);
    assert!(tags.contains(2));
    assert_eq!(tags.get_index(1), Some(2));
    assert_eq!(tags.get_index(3), None);
    assert!(tags.remove(5));
    assert_eq!(tags.to_vec(), vec![2, 9]);
    assert!(!tags.remove(5));
    assert!(!tags.contains(5));
    for t in [4, 6, 8, 1] {
        tags.insert(t);
    }
    // The tags that stay keep their order, wherever the one that leaves stood.
    assert!(tags.remove(9));
    assert_eq!(tags.to_vec(), vec![2, 4, 6, 8, 1]);
    assert!(tags.remove(1));
    assert_eq!(tags.to_vec(), vec![2, 4, 6, 8]);
    assert!(tags.remove(2));
    assert_eq!(tags.to_vec(), vec![4, 6, 8]);
    assert_eq!(tags.get_index(0), Some(4));
    assert!(tags.insert(2));
    assert_eq!(tags.to_vec(), vec![4, 6, 8, 2]);
}

#[test]
fn a_counter_counts_by_kind() {
    let mut counter: Counter<UnitTypeId> = Counter::new();
    assert_eq!(counter.get(UnitTypeId::Marine), 0);
    counter.add_one(UnitTypeId::Marine);
    counter.add_one(UnitTypeId::SCV);
    counter.add_one(UnitTypeId::Marine);
    counter.add_one(UnitTypeId::Other(7));
    assert_eq!(counter.get(UnitTypeId::Marine), 2);
    assert_eq!(counter.get(UnitTypeId::SCV), 1);
    assert_eq!(counter.get(UnitTypeId::Other(7)), 1);
    assert_eq!(counter.get(UnitTypeId::Other(8)), 0);
    let mut orders: Counter<AbilityId> = Counter::new();
    orders.add_one(AbilityId::Attack);
    assert_eq!(orders.get(AbilityId::Attack), 1);
    assert_eq!(orders.get(AbilityId::Stop), 0);
}

#[test]
fn the_least_and_the_greatest_are_found_by_a_key() {
    let mut units = Units::new();
    for (tag, hp) in [(1u64, 30u32), (2, 10), (3, 30), (4, 5), (5, 5)] {
        let mut u = marine(tag, 0, 0);
        u.health = Some(hp);
        units.push(u);
    }
    let by_health = |u: &Unit| u.health().unwrap_or(0) as i64;
    // Of equals the first is the least and the last the greatest.
    assert_eq!(units.min(by_health).unwrap().tag(), 4);
    assert_eq!(units.max(by_health).unwrap().tag(), 3);
    assert_eq!(units.min_value(by_health), Some(5));
    assert_eq!(units.max_value(by_health), Some(30));
    let none = Units::new();
    assert!(none.min(by_health).is_none());
    assert!(none.max(by_health).is_none());
    assert_eq!(none.min_value(by_health), None);
    assert_eq!(none.max_value(by_health), None);
}

#[test]
fn the_distance_to_the_nearest_and_the_furthest_is_rounded_down() {
    let mut units = Units::new();
    units.push(marine(1, 3, 4));
    units.push(marine(2, 1, 1));
    units.push(marine(3, -6, 8));
    let origin = Point2::new(0, 0);
    assert_eq!(units.closest_distance(origin), Some(5792));
    assert_eq!(units.furthest_distance(origin), Some(10 * SCALE as i64));
    let five = 5 * SCALE as i128;
    assert_eq!(units.closest_distance_squared(Point2::new(3 * SCALE, 9 * SCALE)), Some(five * five));
    assert_eq!(Units::new().closest_distance(origin), None);
    assert_eq!(Units::new().furthest_distance(origin), None);
}

#[test]
fn lists_and_sets_say_what_they_hold() {
    let types = vec![UnitTypeId::Marine, UnitTypeId::SCV];
    assert!(Container::contains(&types, &UnitTypeId::SCV));
    assert!(!Container::contains(&types, &UnitTypeId::Drone));
    let abilities = vec![AbilityId::Stop];
    assert!(Container::contains(&abilities, &AbilityId::Stop));
    assert!(!Container::contains(&abilities, &AbilityId::Attack));
    let upgrades = vec![UpgradeId::LurkerRange];
    assert!(Container::contains(&upgrades, &UpgradeId::LurkerRange));
    assert!(!Container::contains(&upgrades, &UpgradeId::Other(5)));
    let tags: Vec<u64> = vec![4, 7];
    assert!(Container::contains(&tags, &7));
    assert!(!Container::contains(&tags, &5));
    let mut set = TagSet::new();
    set.insert(9);
    assert!(Container::contains(&set, &9));
    assert!(!Container::contains(&set, &4));
    let mut ordered = OrderedTags::new();
    ordered.insert(2);
    assert!(Container::contains(&ordered, &2));
    assert!(!Container::contains(&ordered, &3));
}
