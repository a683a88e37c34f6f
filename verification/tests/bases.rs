use sc2_core::expansion::{
    center_of, find_expansions, find_occupant, is_adjacent, mean_of, measure, order_expansions,
    refresh_occupancy, resource_neighbors, resources_from, search_ring, site_for, start_center,
    Expansion, ExpansionError, Resource, StartSite,
};
use sc2_core::game_data::{Attribute, GameData, UnitTypeData};
use sc2_core::game_state::{Alliance, Race};
use sc2_core::geometry::{Grid, Point2, SCALE};
use sc2_core::ids::UnitTypeId;
use sc2_core::tags::{OrderedTags, TagSet};
use sc2_core::unit::{DisplayType, Unit};
use sc2_core::units::Units;

fn at(x: i32, y: i32) -> Point2 {
    Point2::new(x * SCALE, y * SCALE)
}

fn mineral(tag: u64, x: i32, y: i32) -> Resource {
    Resource { tag, position: at(x, y), geyser: false, height: 0 }
}

fn geyser(tag: u64, x: i32, y: i32) -> Resource {
    Resource { tag, position: at(x, y), geyser: true, height: 0 }
}

fn far_away() -> StartSite {
    StartSite { location: at(500, 500), center: at(500, 500) }
}

fn open_ground(size: usize) -> Grid<bool> {
    Grid::filled(size, size, true).unwrap()
}

fn dist2(a: Point2, b: Point2) -> i128 {
    a.distance_squared(b)
}

fn base_at(loc: Point2) -> Expansion {
    Expansion {
        loc,
        center: loc,
        minerals: OrderedTags::new(),
        geysers: TagSet::new(),
        alliance: Alliance::Neutral,
        base: None,
    }
}

#[test]
fn two_minerals_make_one_base_in_the_ring_around_them() {
    let rs = vec![mineral(1, 10, 10), mineral(2, 12, 10)];
    let found = find_expansions(&rs, &open_ground(40), far_away(), far_away(), None).unwrap();
    assert_eq!(found.len(), 1);
    let e = &found[0];
    assert_eq!(e.alliance, Alliance::Neutral);
    assert_eq!(e.base, None);
    assert_eq!(e.center, Point2::new(11 * SCALE + 2048, 10 * SCALE + 2048));

    // The place lies in the ring around the centre of the resources.
    let dx = (e.loc.x - e.center.x) / SCALE;
    let dy = (e.loc.y - e.center.y) / SCALE;
    assert_eq!(e.loc, Point2::new(e.center.x + dx * SCALE, e.center.y + dy * SCALE));
    let d = dx * dx + dy * dy;
    assert!(16 < d && d <= 64);
    // It is far enough from both fields.
    let six = 6 * SCALE as i128;
    assert!(dist2(e.loc, rs[0].position) >= six * six);
    assert!(dist2(e.loc, rs[1].position) >= six * six);
    // The nearer field stands first.
    let minerals = e.minerals.to_vec();
    assert_eq!(minerals.len(), 2);
    let of_tag = |t: u64| rs.iter().find(|r| r.tag == t).unwrap().position;
    assert!(dist2(of_tag(minerals[0]), e.loc) <= dist2(of_tag(minerals[1]), e.loc));
    assert!(!e.geysers.contains(1) && !e.geysers.contains(2));
}

#[test]
fn the_place_is_the_first_of_those_with_the_nearest_furthest_resource() {
    let rs = vec![mineral(1, 10, 10), mineral(2, 12, 10)];
    let ground = open_ground(40);
    let center = Point2::new(11 * SCALE + 2048, 10 * SCALE + 2048);
    let loc = search_ring(center, &rs, &ground).unwrap();
    let six = 6 * SCALE as i128;
    let mut best: Option<(i128, Point2)> = None;
    for dx in -7..=7i32 {
        for dy in -7..=7i32 {
            let d = dx * dx + dy * dy;
            if !(16 < d && d <= 64) {
                continue;
            }
            let p = Point2::new(center.x + dx * SCALE, center.y + dy * SCALE);
            if rs.iter().any(|r| dist2(p, r.position) < six * six) {
                continue;
            }
            let far = rs.iter().map(|r| dist2(p, r.position)).max().unwrap();
            if best.map_or(true, |(least, _)| far < least) {
                best = Some((far, p));
            }
        }
    }
    assert_eq!(loc, best.unwrap().1);
    assert_eq!(loc, Point2::new(10 * SCALE + 2048, 3 * SCALE + 2048));
}

#[test]
fn a_single_resource_makes_no_base() {
    let rs = vec![mineral(1, 10, 10), mineral(2, 30, 30)];
    let found = find_expansions(&rs, &open_ground(40), far_away(), far_away(), None).unwrap();
    assert!(found.is_empty());
}

#[test]
fn resources_belong_together_up_to_eight_and_a_half_cells_and_two_levels() {
    let a = mineral(1, 0, 0);
    let mut b = Resource { tag: 2, position: Point2::new(8 * SCALE + 2048, 0), geyser: false, height: 2 };
    assert!(is_adjacent(&a, &b));
    assert!(is_adjacent(&b, &a));
    b.position = Point2::new(8 * SCALE + 2049, 0);
    assert!(!is_adjacent(&a, &b));
    b.position = at(6, 6);
    assert!(is_adjacent(&a, &b));
    b.height = 3;
    assert!(!is_adjacent(&a, &b));
    let rs = vec![mineral(1, 0, 0), mineral(2, 5, 0), mineral(3, 10, 0), mineral(4, 30, 0)];
    assert_eq!(resource_neighbors(&rs), vec![vec![1], vec![0, 2], vec![1], vec![]]);
}

#[test]
fn a_chain_of_resources_is_one_base_and_distant_ones_are_another() {
    let rs = vec![
        mineral(1, 10, 10),
        mineral(2, 14, 10),
        mineral(3, 18, 10),
        geyser(4, 18, 16),
        mineral(5, 60, 60),
        mineral(6, 62, 60),
    ];
    let found = find_expansions(&rs, &open_ground(100), far_away(), far_away(), None).unwrap();
    assert_eq!(found.len(), 2);
    let mut first = found[0].minerals.to_vec();
    first.sort();
    assert_eq!(first, vec![1, 2, 3]);
    assert!(found[0].geysers.contains(4));
    let mut second = found[1].minerals.to_vec();
    second.sort();
    assert_eq!(second, vec![5, 6]);
    let seven = 7 * SCALE as i128;
    assert!(dist2(found[0].loc, rs[3].position) >= seven * seven);
}

#[test]
fn a_group_at_a_start_site_stands_where_the_player_started() {
    let rs = vec![mineral(1, 10, 10), mineral(2, 12, 10)];
    // The centre of the two is (11.5, 10.5); the start lies 3.5 and a bit from it.
    let mine = StartSite { location: at(12, 14), center: at(30, 30) };
    let e = site_for(&rs, &open_ground(40), mine, far_away(), Some(99)).ok().unwrap();
    assert_eq!(e.loc, at(12, 14));
    assert_eq!(e.center, at(30, 30));
    assert_eq!(e.alliance, Alliance::Own);
    assert_eq!(e.base, Some(99));
    assert_eq!(e.minerals.to_vec(), vec![2, 1]);

    let e = site_for(&rs, &open_ground(40), far_away(), mine, Some(99)).ok().unwrap();
    assert_eq!(e.loc, at(12, 14));
    assert_eq!(e.alliance, Alliance::Enemy);
    assert_eq!(e.base, None);

    // The distance counts from where the player started, not from the centre of the start.
    let beside = StartSite { location: at(12, 17), center: Point2::new(11 * SCALE + 2048, 10 * SCALE + 2048) };
    let e = site_for(&rs, &open_ground(40), beside, far_away(), Some(99)).ok().unwrap();
    assert_eq!(e.alliance, Alliance::Neutral);

    // Just beyond four cells the group is a base of its own.
    let off = StartSite { location: Point2::new(11 * SCALE + 2048, 14 * SCALE + 2049), center: at(11, 12) };
    let e = site_for(&rs, &open_ground(40), off, far_away(), Some(99)).ok().unwrap();
    assert_eq!(e.alliance, Alliance::Neutral);
    assert_eq!(e.base, None);
    let on = StartSite { location: Point2::new(11 * SCALE + 2048, 14 * SCALE + 2048), center: at(11, 12) };
    let e = site_for(&rs, &open_ground(40), on, far_away(), Some(99)).ok().unwrap();
    assert_eq!(e.alliance, Alliance::Own);
    assert_eq!(e.loc, on.location);
}

#[test]
fn without_a_place_to_build_the_search_fails() {
    let rs = vec![mineral(1, 10, 10), mineral(2, 12, 10)];
    let nowhere = Grid::filled(40, 40, false).unwrap();
    let center = Point2::new(11 * SCALE + 2048, 10 * SCALE + 2048);
    assert_eq!(
        find_expansions(&rs, &nowhere, far_away(), far_away(), None).err(),
        Some(ExpansionError::NoPlacement(center))
    );
    assert_eq!(
        site_for(&rs, &nowhere, far_away(), far_away(), None).err(),
        Some(ExpansionError::NoPlacement(center))
    );
    assert_eq!(search_ring(center, &rs, &nowhere), None);
    assert_eq!(
        site_for(&Vec::new(), &open_ground(5), far_away(), far_away(), None).err(),
        Some(ExpansionError::NoResources)
    );
}

#[test]
fn geysers_and_minerals_weigh_the_same_in_the_centre() {
    let rs = vec![mineral(1, 0, 0), mineral(2, 2, 0), mineral(3, 4, 0), geyser(4, 10, 8)];
    let (whole, center) = center_of(&rs);
    // All four: (16, 8) / 4 = (4, 2).
    assert_eq!(whole, Point2::new(4 * SCALE + 2048, 2 * SCALE + 2048));
    // Minerals (2, 0), geyser (10, 8): the middle is (6, 4).
    assert_eq!(center, Point2::new(6 * SCALE + 2048, 4 * SCALE + 2048));
    let only = vec![mineral(1, 0, 0), mineral(2, 3, 0)];
    let (whole, center) = center_of(&only);
    assert_eq!(whole, center);
    assert_eq!(center, Point2::new(SCALE + 2048, 2048));
    assert_eq!(mean_of(&only), (3 * SCALE / 2, 0));
    assert_eq!(mean_of(&Vec::new()), (0, 0));
}

#[test]
fn measuring_tells_the_clearance_and_the_furthest_resource() {
    let rs = vec![mineral(1, 6, 0), geyser(2, 0, 7)];
    let (clear, far) = measure(at(0, 0), &rs);
    assert!(clear);
    let seven = 7 * SCALE as i128;
    assert_eq!(far, seven * seven);
    let (clear, _) = measure(Point2::new(1, 0), &rs);
    assert!(!clear);
    let (clear, _) = measure(Point2::new(0, 1), &rs);
    assert!(!clear);
    assert_eq!(measure(at(0, 0), &Vec::new()), (true, 0));
}

#[test]
fn mineral_fields_are_listed_nearest_first_and_equally_near_ones_in_their_order() {
    let rs = vec![mineral(1, 20, 10), mineral(2, 12, 10), geyser(3, 11, 10), mineral(4, 10, 12), mineral(5, 10, 8)];
    let mine = StartSite { location: at(10, 10), center: at(13, 10) };
    let e = site_for(&rs, &open_ground(40), mine, far_away(), None).ok().unwrap();
    assert_eq!(e.minerals.to_vec(), vec![2, 4, 5, 1]);
    assert!(e.geysers.contains(3));
    assert!(!e.minerals.contains(3));
}

#[test]
fn bases_are_put_in_the_order_of_what_they_cost_to_hold() {
    let bases = vec![base_at(at(1, 0)), base_at(at(2, 0)), base_at(at(3, 0)), base_at(at(4, 0))];
    let mine = vec![Some(50 * SCALE), Some(10 * SCALE), None, Some(10 * SCALE)];
    let theirs = vec![Some(100 * SCALE), Some(5 * SCALE), Some(0), Some(5 * SCALE)];
    // Ten times the cost: 900 - 1000, 180 - 50, 18000000 - 0, 180 - 50.
    let ordered = order_expansions(bases, &mine, &theirs);
    let locs: Vec<Point2> = ordered.iter().map(|e| e.loc).collect();
    assert_eq!(locs, vec![at(1, 0), at(2, 0), at(4, 0), at(3, 0)]);
}

#[test]
fn a_base_without_a_path_counts_as_out_of_reach() {
    let bases = vec![base_at(at(1, 0)), base_at(at(2, 0)), base_at(at(3, 0))];
    let ordered = order_expansions(bases, &vec![None, Some(i32::MAX)], &vec![Some(0), Some(0)]);
    let locs: Vec<Point2> = ordered.iter().map(|e| e.loc).collect();
    // The third has no entry at all: both of its paths count as out of
    // reach, which costs eight times a million cells. The longest path
    // that can be told costs more, and a path out of reach from the bot
    // alone costs most.
    assert_eq!(locs, vec![at(3, 0), at(2, 0), at(1, 0)]);
}

#[test]
fn the_last_main_building_at_a_place_holds_it() {
    let mut data = GameData::new();
    for t in [UnitTypeId::CommandCenter, UnitTypeId::Hatchery, UnitTypeId::Barracks, UnitTypeId::CommandCenterFlying] {
        let mut d = UnitTypeData::new(t, Race::Terran);
        d.attributes = vec![Attribute::Structure];
        data.units.push(d);
    }
    let mut all = Units::new();
    all.push(Unit::blank(1, UnitTypeId::CommandCenter, Alliance::Own, at(10, 10)));
    all.push(Unit::blank(2, UnitTypeId::Hatchery, Alliance::Enemy, at(50, 50)));
    all.push(Unit::blank(3, UnitTypeId::Barracks, Alliance::Own, at(30, 30)));
    all.push(Unit::blank(4, UnitTypeId::CommandCenterFlying, Alliance::Own, at(40, 40)));
    let mut placeholder = Unit::blank(5, UnitTypeId::CommandCenter, Alliance::Own, at(60, 60));
    placeholder.display_type = DisplayType::Placeholder;
    all.push(placeholder);
    all.push(Unit::blank(6, UnitTypeId::Hatchery, Alliance::Enemy, at(10, 10)));

    let enemy_start = at(70, 70);
    assert_eq!(find_occupant(&all, &data, at(10, 10), enemy_start, true), (Alliance::Enemy, Some(6)));
    assert_eq!(find_occupant(&all, &data, at(50, 50), enemy_start, true), (Alliance::Enemy, Some(2)));
    assert_eq!(find_occupant(&all, &data, at(30, 30), enemy_start, true), (Alliance::Neutral, None));
    assert_eq!(find_occupant(&all, &data, at(40, 40), enemy_start, true), (Alliance::Neutral, None));
    assert_eq!(find_occupant(&all, &data, at(60, 60), enemy_start, true), (Alliance::Neutral, None));
    assert_eq!(find_occupant(&all, &data, at(70, 70), enemy_start, true), (Alliance::Enemy, None));
    assert_eq!(find_occupant(&all, &data, at(70, 70), enemy_start, false), (Alliance::Neutral, None));

    let mut bases = vec![base_at(at(50, 50)), base_at(at(10, 10)), base_at(at(70, 70)), base_at(at(50, 50))];
    bases[1].alliance = Alliance::Own;
    bases[1].base = Some(1);
    bases[1].minerals.insert(8);
    refresh_occupancy(&mut bases, &all, &data, enemy_start, true);
    let held: Vec<(Alliance, Option<u64>)> = bases.iter().map(|e| (e.alliance, e.base)).collect();
    assert_eq!(
        held,
        vec![
            (Alliance::Enemy, Some(2)),
            (Alliance::Enemy, Some(6)),
            (Alliance::Enemy, None),
            (Alliance::Neutral, None),
        ]
    );
    assert_eq!(bases[1].minerals.to_vec(), vec![8]);
    assert_eq!(bases[1].loc, at(10, 10));
}

#[test]
fn the_centre_of_a_start_site_is_the_mean_of_the_start_and_the_resources_near_it() {
    let rs = vec![mineral(1, 10, 0), mineral(2, 0, 11), mineral(3, 0, 12)];
    assert_eq!(start_center(&rs, at(0, 0)), Point2::new(10 * SCALE / 3, 11 * SCALE / 3));
    assert_eq!(start_center(&Vec::new(), at(5, 7)), at(5, 7));
}

#[test]
fn small_mineral_fields_that_block_a_path_make_no_base() {
    let mut data = GameData::new();
    let mut geyser_type = UnitTypeData::new(UnitTypeId::VespeneGeyser, Race::Random);
    geyser_type.has_vespene = true;
    data.units.push(geyser_type);
    let heights = Grid::from_cells(2, 1, vec![3u8, 9]).unwrap();
    let mut units = Units::new();
    units.push(Unit::blank(1, UnitTypeId::MineralField, Alliance::Neutral, Point2::new(100, 0)));
    units.push(Unit::blank(2, UnitTypeId::MineralField450, Alliance::Neutral, Point2::new(0, 0)));
    units.push(Unit::blank(3, UnitTypeId::VespeneGeyser, Alliance::Neutral, Point2::new(SCALE, 0)));
    units.push(Unit::blank(4, UnitTypeId::MineralField750, Alliance::Neutral, Point2::new(9 * SCALE, 0)));
    let rs = resources_from(&units, &data, &heights);
    assert_eq!(
        rs,
        vec![
            Resource { tag: 1, position: Point2::new(100, 0), geyser: false, height: 3 },
            Resource { tag: 3, position: Point2::new(SCALE, 0), geyser: true, height: 9 },
            Resource { tag: 4, position: Point2::new(9 * SCALE, 0), geyser: false, height: 0 },
        ]
    );
}

#[test]
fn the_bases_do_not_depend_on_the_order_of_the_resources() {
    let rs = vec![
        mineral(1, 10, 10),
        mineral(2, 14, 10),
        mineral(3, 18, 10),
        geyser(4, 18, 16),
        mineral(5, 60, 60),
        mineral(6, 62, 60),
        mineral(7, 90, 20),
    ];
    let sets = |rs: &Vec<Resource>| -> Vec<(Vec<u64>, Vec<u64>)> {
        let mut found: Vec<(Vec<u64>, Vec<u64>)> = find_expansions(rs, &open_ground(100), far_away(), far_away(), None)
            .unwrap()
            .iter()
            .map(|e| {
                let mut minerals = e.minerals.to_vec();
                minerals.sort();
                let geysers: Vec<u64> = (1..8).filter(|t| e.geysers.contains(*t)).collect();
                (minerals, geysers)
            })
            .collect();
        found.sort();
        found
    };
    let first = sets(&rs);
    assert_eq!(first, vec![(vec![1, 2, 3], vec![4]), (vec![5, 6], vec![])]);
    let mut turned = rs.clone();
    turned.reverse();
    assert_eq!(sets(&turned), first);
    let mixed = vec![rs[4], rs[2], rs[6], rs[0], rs[3], rs[5], rs[1]];
    assert_eq!(sets(&mixed), first);
}
