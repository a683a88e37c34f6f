use sc2_core::bot::{Bot, PlacementOptions};
use sc2_core::game_data::{GameData, UnitTypeData};
use sc2_core::game_state::{Alliance, GameInfo, GameState, Race};
use sc2_core::geometry::{Point2, SCALE};
use sc2_core::ids::{AbilityId, UnitTypeId};
use sc2_core::unit::Unit;
use sc2_core::units::Units;
use sc2_core::placement::{
    ask_about, ask_about_addons, keep_accepted, offset_cells, ring_of, settle_place,
    PlacementQuery, PlacementSearch, SearchStage, SearchStep,
};

const BUILD: AbilityId = AbilityId::Other(321);

fn at(x: i32, y: i32) -> Point2 {
    Point2::new(x * SCALE, y * SCALE)
}

fn options(random: bool, addon: bool) -> PlacementOptions {
    PlacementOptions { max_distance: 5, step: 2, random, addon }
}

fn asked(step: &SearchStep) -> Vec<PlacementQuery> {
    match step {
        SearchStep::Ask(q) => q.clone(),
        _ => panic!("the search does not ask"),
    }
}

fn found(step: &SearchStep) -> Point2 {
    match step {
        SearchStep::Found(p) => *p,
        _ => panic!("the search has not found a place"),
    }
}

#[test]
fn the_ring_runs_along_all_four_sides() {
    let ring = ring_of(at(10, 10), 2, 2);
    assert_eq!(
        ring,
        vec![
            at(8, 8), at(8, 12), at(8, 8), at(12, 8),
            at(10, 8), at(10, 12), at(8, 10), at(12, 10),
            at(12, 8), at(12, 12), at(8, 12), at(12, 12),
        ]
    );
    assert_eq!(ring_of(at(10, 10), 3, 2).len(), 16);
    assert_eq!(ring_of(at(10, 10), 0, 1), vec![at(10, 10); 4]);
    // Places beyond the range of the coordinates are left out.
    assert_eq!(ring_of(Point2::new(i32::MAX, 0), 1, 1).len(), 7);
    assert_eq!(offset_cells(at(1, 1), -3, 4), Some(at(-2, 5)));
    assert_eq!(offset_cells(Point2::new(i32::MAX, 0), 1, 0), None);
}

#[test]
fn the_places_with_a_yes_are_kept() {
    let places = vec![at(1, 1), at(2, 2), at(3, 3)];
    assert_eq!(keep_accepted(&places, &vec![true, false, true]), vec![at(1, 1), at(3, 3)]);
    assert_eq!(keep_accepted(&places, &vec![false, true]), vec![at(2, 2)]);
    assert_eq!(keep_accepted(&places, &vec![]), Vec::<Point2>::new());
    assert_eq!(
        ask_about(BUILD, &places)[1],
        PlacementQuery { ability: BUILD, pos: at(2, 2) }
    );
    assert_eq!(
        ask_about_addons(&places)[0],
        PlacementQuery {
            ability: AbilityId::TerranBuildSupplyDepot,
            pos: Point2::new(SCALE + 10240, SCALE - 2048),
        }
    );
}

#[test]
fn the_wanted_position_is_taken_if_the_game_says_yes() {
    let (mut search, first) = PlacementSearch::start(BUILD, at(10, 10), options(false, false));
    assert_eq!(first, vec![PlacementQuery { ability: BUILD, pos: at(10, 10) }]);
    assert_eq!(search.stage, SearchStage::First);
    let step = search.advance(&vec![true]);
    assert_eq!(found(&step), at(10, 10));
    assert_eq!(search.stage, SearchStage::Done);
    assert!(matches!(search.advance(&vec![true]), SearchStep::NotFound));
}

#[test]
fn with_an_add_on_both_answers_must_be_yes() {
    let (mut search, first) = PlacementSearch::start(BUILD, at(10, 10), options(false, true));
    assert_eq!(first.len(), 2);
    assert_eq!(first[1].ability, AbilityId::TerranBuildSupplyDepot);
    assert_eq!(first[1].pos, Point2::new(10 * SCALE + 10240, 10 * SCALE - 2048));
    let step = search.advance(&vec![true, false]);
    assert_eq!(asked(&step).len(), 12);
    assert_eq!(search.stage, SearchStage::Ring);
    let (mut search, _) = PlacementSearch::start(BUILD, at(10, 10), options(false, true));
    assert_eq!(found(&search.advance(&vec![true, true])), at(10, 10));
}

#[test]
fn the_nearest_place_of_the_first_ring_with_a_yes_is_taken() {
    let (mut search, _) = PlacementSearch::start(BUILD, at(10, 10), options(false, false));
    let ring = asked(&search.advance(&vec![false]));
    assert_eq!(search.distance, 2);
    let mut answers = vec![false; ring.len()];
    answers[1] = true; // (8, 12)
    answers[6] = true; // (8, 10)
    answers[7] = true; // (12, 10)
    let step = search.advance(&answers);
    assert_eq!(found(&step), at(8, 10));
}

#[test]
fn the_search_goes_from_ring_to_ring_and_gives_up_at_the_last() {
    let (mut search, _) = PlacementSearch::start(BUILD, at(10, 10), options(false, false));
    let ring = asked(&search.advance(&vec![false]));
    assert_eq!(ring.len(), 12);
    let ring = asked(&search.advance(&vec![false; 12]));
    assert_eq!(search.distance, 4);
    assert_eq!(ring.len(), 20);
    assert_eq!(ring[0].pos, at(6, 6));
    let step = search.advance(&vec![false; 20]);
    assert!(matches!(step, SearchStep::NotFound));
    assert_eq!(search.stage, SearchStage::Done);
}

#[test]
fn a_search_without_a_step_ends_after_the_first_question() {
    let no_step = PlacementOptions { max_distance: 17, step: 0, random: false, addon: false };
    let (mut search, _) = PlacementSearch::start(BUILD, at(10, 10), no_step);
    assert!(matches!(search.advance(&vec![false]), SearchStep::NotFound));
    let short = PlacementOptions { max_distance: 2, step: 2, random: false, addon: false };
    let (mut search, _) = PlacementSearch::start(BUILD, at(10, 10), short);
    assert!(matches!(search.advance(&vec![]), SearchStep::NotFound));
}

#[test]
fn with_an_add_on_the_places_of_a_ring_are_asked_about_twice() {
    let (mut search, _) = PlacementSearch::start(BUILD, at(10, 10), options(false, true));
    let ring = asked(&search.advance(&vec![false, false]));
    let mut answers = vec![false; ring.len()];
    answers[4] = true; // (10, 8)
    answers[7] = true; // (12, 10)
    let second = asked(&search.advance(&answers));
    assert_eq!(search.stage, SearchStage::Addon);
    assert_eq!(
        second,
        vec![
            PlacementQuery {
                ability: AbilityId::TerranBuildSupplyDepot,
                pos: Point2::new(10 * SCALE + 10240, 8 * SCALE - 2048),
            },
            PlacementQuery {
                ability: AbilityId::TerranBuildSupplyDepot,
                pos: Point2::new(12 * SCALE + 10240, 10 * SCALE - 2048),
            },
        ]
    );
    let step = search.advance(&vec![false, true]);
    assert_eq!(found(&step), at(12, 10));

    let (mut search, _) = PlacementSearch::start(BUILD, at(10, 10), options(false, true));
    search.advance(&vec![false, false]);
    search.advance(&answers);
    let next = asked(&search.advance(&vec![false, false]));
    assert_eq!(search.stage, SearchStage::Ring);
    assert_eq!(search.distance, 4);
    assert_eq!(next.len(), 20);
}

#[test]
fn a_random_place_is_one_of_those_with_a_yes() {
    for _ in 0..20 {
        let (mut search, _) = PlacementSearch::start(BUILD, at(10, 10), options(true, false));
        let ring = asked(&search.advance(&vec![false]));
        let mut answers = vec![false; ring.len()];
        answers[5] = true;
        answers[9] = true;
        let p = found(&search.advance(&answers));
        assert!(p == at(10, 12) || p == at(12, 12));
    }
    // Among many places chance does not always take the first.
    let places: Vec<Point2> = (0..64).map(|i| at(i, 0)).collect();
    let mut other = false;
    for _ in 0..50 {
        let (mut search, _) = PlacementSearch::start(BUILD, at(0, 0), options(true, false));
        search.stage = SearchStage::Ring;
        search.candidates = places.clone();
        let p = found(&search.advance(&vec![true; 64]));
        assert!(places.contains(&p));
        if p != places[0] {
            other = true;
        }
    }
    assert!(other);
}

#[test]
fn settling_takes_the_picked_place_or_the_nearest() {
    let places = vec![at(5, 0), at(-2, 0), at(0, 2), at(9, 9)];
    assert_eq!(settle_place(&places, at(0, 0), false, Some(at(9, 9))), Some(at(-2, 0)));
    assert_eq!(settle_place(&places, at(0, 0), true, Some(at(9, 9))), Some(at(9, 9)));
    assert_eq!(settle_place(&Vec::new(), at(0, 0), false, None), None);
    assert_eq!(settle_place(&Vec::new(), at(0, 0), true, None), None);
}

fn bot_that_builds() -> Bot {
    let mut data = GameData::new();
    let mut barracks = UnitTypeData::new(UnitTypeId::Barracks, Race::Terran);
    barracks.ability = Some(BUILD);
    data.units.push(barracks);
    let mut refinery = UnitTypeData::new(UnitTypeId::Refinery, Race::Terran);
    refinery.ability = Some(AbilityId::Other(320));
    data.units.push(refinery);
    data.units.push(UnitTypeData::new(UnitTypeId::Marine, Race::Terran));
    Bot::new(GameInfo::blank(40, 40).unwrap(), data, GameState::blank(40, 40).unwrap())
}

/// Runs a search to its end against a game that lets build on the given
/// places; tells the place that was found and how often the game was asked.
fn run(bot: &Bot, near: Point2, options: PlacementOptions, free: &[Point2]) -> (Option<Point2>, usize) {
    let (mut search, mut asked) = bot.find_placement(UnitTypeId::Barracks, near, options).unwrap();
    let mut rounds = 0;
    loop {
        rounds += 1;
        let answers: Vec<bool> = asked.iter().map(|q| free.contains(&q.pos)).collect();
        match search.advance(&answers) {
            SearchStep::Ask(next) => asked = next,
            SearchStep::Found(place) => return (Some(place), rounds),
            SearchStep::NotFound => return (None, rounds),
        }
    }
}

#[test]
fn the_bot_searches_ring_by_ring_until_the_game_says_yes() {
    let bot = bot_that_builds();
    let options = PlacementOptions { max_distance: 9, step: 2, random: false, addon: false };
    assert_eq!(run(&bot, at(10, 10), options, &[at(10, 10)]), (Some(at(10, 10)), 1));
    // Of places that are as near the first of the ring is taken.
    assert_eq!(run(&bot, at(10, 10), options, &[at(14, 10), at(10, 6), at(4, 10)]), (Some(at(10, 6)), 3));
    assert_eq!(run(&bot, at(10, 10), options, &[at(18, 10), at(11, 10)]), (Some(at(18, 10)), 5));
    assert_eq!(run(&bot, at(10, 10), options, &[at(20, 10), at(11, 11)]), (None, 5));
    assert_eq!(run(&bot, at(10, 10), options, &[]), (None, 5));
    assert!(bot.find_placement(UnitTypeId::Marine, at(10, 10), options).is_none());
    assert!(bot.find_placement(UnitTypeId::Hatchery, at(10, 10), options).is_none());
    let defaults = PlacementOptions::default();
    assert_eq!(run(&bot, at(10, 10), defaults, &[]), (None, 9));
}

#[test]
fn the_geysers_near_a_base_are_asked_about() {
    let mut bot = bot_that_builds();
    let mut geyser_type = UnitTypeData::new(UnitTypeId::VespeneGeyser, Race::Random);
    geyser_type.has_vespene = true;
    bot.game_data.units.push(geyser_type);
    let geyser = |tag: u64, x: i32, y: i32| Unit::blank(tag, UnitTypeId::VespeneGeyser, Alliance::Neutral, at(x, y));
    bot.update_units(Units::from_vec(vec![geyser(1, 30, 30), geyser(2, 10, 21), geyser(3, 3, 10), geyser(4, 10, 22)]));
    let (geysers, asked) = bot.find_gas_placement(at(10, 10), UnitTypeId::Refinery).unwrap();
    assert_eq!(geysers.tags(), vec![2, 3]);
    assert_eq!(
        asked,
        vec![
            PlacementQuery { ability: AbilityId::Other(320), pos: at(10, 21) },
            PlacementQuery { ability: AbilityId::Other(320), pos: at(3, 10) },
        ]
    );
    assert!(bot.find_gas_placement(at(10, 10), UnitTypeId::Extractor).is_none());
    assert!(bot.find_gas_placement(at(10, 10), UnitTypeId::Marine).is_none());
}
