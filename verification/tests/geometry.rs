use sc2_core::geometry::{quotient, root, Grid, Point2, Visibility, SCALE};

fn at(x: i32, y: i32) -> Point2 {
    Point2::new(x * SCALE, y * SCALE)
}

#[test]
fn distance_squared_is_the_sum_of_the_squares() {
    let a = at(1, 2);
    let b = at(4, 6);
    let five = 5 * SCALE as i128;
    assert_eq!(a.distance_squared(b), five * five);
    assert_eq!(b.distance_squared(a), five * five);
    assert_eq!(a.distance_squared(a), 0);
}

#[test]
fn distance_squared_does_not_overflow_at_the_ends_of_the_range() {
    let a = Point2::new(i32::MIN, i32::MIN);
    let b = Point2::new(i32::MAX, i32::MAX);
    let side = i32::MAX as i128 - i32::MIN as i128;
    assert_eq!(a.distance_squared(b), 2 * side * side);
}

#[test]
fn is_closer_includes_the_distance_itself() {
    let a = at(0, 0);
    let b = at(3, 4);
    assert!(a.is_closer(5 * SCALE as i64, b));
    assert!(!a.is_closer(5 * SCALE as i64 - 1, b));
    assert!(a.is_further(5 * SCALE as i64 - 1, b));
    assert!(!a.is_further(5 * SCALE as i64, b));
}

#[test]
fn is_closer_takes_a_negative_distance_by_its_size() {
    let a = at(0, 0);
    let b = at(3, 4);
    assert!(a.is_closer(-5 * SCALE as i64, b));
    assert!(!a.is_closer(-4 * SCALE as i64, b));
}

#[test]
fn offset_moves_the_point_or_fails_at_the_edge() {
    let p = Point2::new(10, 20);
    assert_eq!(p.offset(5, -30), Some(Point2::new(15, -10)));
    assert_eq!(Point2::new(i32::MAX, 0).offset(1, 0), None);
    assert_eq!(Point2::new(0, i32::MIN).offset(0, -1), None);
}

#[test]
fn cell_rounds_down_and_holds_negative_coordinates_at_zero() {
    assert_eq!(Point2::new(SCALE * 3 + 4095, SCALE * 7).cell(), (3, 7));
    assert_eq!(Point2::new(SCALE * 3, SCALE * 7 - 1).cell(), (3, 6));
    assert_eq!(Point2::new(-1, -SCALE * 5).cell(), (0, 0));
}

#[test]
fn cell_center_is_half_a_cell_in() {
    assert_eq!(Point2::cell_center(2, 3), Some(Point2::new(2 * SCALE + 2048, 3 * SCALE + 2048)));
    assert_eq!(Point2::cell_center(524288, 0), None);
    assert!(Point2::cell_center(524287, 524287).is_some());
}

#[test]
fn quotient_rounds_down_for_negative_numbers_too() {
    assert_eq!(quotient(7, 2), 3);
    assert_eq!(quotient(-7, 2), -4);
    assert_eq!(quotient(-8, 2), -4);
    assert_eq!(quotient(0, 5), 0);
    assert_eq!(quotient(-1, 4096), -1);
}

#[test]
fn grid_filled_has_the_value_everywhere_and_nothing_outside() {
    let g = Grid::filled(3, 2, 7u8).unwrap();
    assert_eq!(g.width(), 3);
    assert_eq!(g.height(), 2);
    for x in 0..3 {
        for y in 0..2 {
            assert_eq!(g.get((x, y)), Some(7));
        }
    }
    assert_eq!(g.get((3, 0)), None);
    assert_eq!(g.get((0, 2)), None);
}

#[test]
fn grid_filled_refuses_more_cells_than_fit() {
    assert!(Grid::filled(usize::MAX, 2, false).is_none());
    assert!(Grid::filled(0, usize::MAX, false).is_some());
}

#[test]
fn grid_from_cells_reads_row_by_row() {
    let g = Grid::from_cells(3, 2, vec![1u8, 2, 3, 4, 5, 6]).unwrap();
    assert_eq!(g.get((0, 0)), Some(1));
    assert_eq!(g.get((2, 0)), Some(3));
    assert_eq!(g.get((0, 1)), Some(4));
    assert_eq!(g.get((2, 1)), Some(6));
    assert!(Grid::from_cells(3, 2, vec![1u8, 2, 3]).is_none());
}

#[test]
fn grid_set_changes_one_cell_only() {
    let mut g = Grid::filled(2, 2, Visibility::Hidden).unwrap();
    assert!(g.set((1, 0), Visibility::Visible));
    assert_eq!(g.get((1, 0)), Some(Visibility::Visible));
    assert_eq!(g.get((0, 0)), Some(Visibility::Hidden));
    assert_eq!(g.get((0, 1)), Some(Visibility::Hidden));
    assert_eq!(g.get((1, 1)), Some(Visibility::Hidden));
    assert!(!g.set((2, 0), Visibility::Visible));
    assert!(!g.set((0, 2), Visibility::Visible));
}

#[test]
fn visibility_checks_tell_the_states_apart() {
    assert!(Visibility::Visible.is_visible());
    assert!(Visibility::Visible.is_explored());
    assert!(Visibility::Fogged.is_fogged());
    assert!(Visibility::Fogged.is_explored());
    assert!(Visibility::Hidden.is_hidden());
    assert!(!Visibility::Hidden.is_explored());
    assert!(Visibility::FullHidden.is_full_hidden());
    assert!(!Visibility::FullHidden.is_explored());
}

#[test]
fn the_root_is_rounded_down() {
    assert_eq!(root(0), 0);
    assert_eq!(root(1), 1);
    assert_eq!(root(3), 1);
    assert_eq!(root(4), 2);
    assert_eq!(root(24), 4);
    assert_eq!(root(25), 5);
    assert_eq!(root(1 << 64), 1 << 32);
    assert_eq!(root((1 << 64) - 1), (1 << 32) - 1);
    assert_eq!(root(u128::MAX), u64::MAX);
}

#[test]
fn the_distance_is_the_root_of_its_square() {
    assert_eq!(at(1, 2).distance(at(4, 6)), 5 * SCALE as i64);
    assert_eq!(at(0, 0).distance(at(0, 0)), 0);
    // The square root of two, in 4096ths: 5792.6...
    assert_eq!(at(0, 0).distance(at(1, 1)), 5792);
    let a = Point2::new(i32::MIN, i32::MIN);
    let b = Point2::new(i32::MAX, i32::MAX);
    // 4294967295 times the square root of two
    assert_eq!(a.distance(b), 6074000998);
}

#[test]
fn a_point_is_moved_along_the_line_to_another() {
    let origin = at(0, 0);
    assert_eq!(origin.towards(at(3, 4), 5 * SCALE), Some(at(3, 4)));
    assert_eq!(origin.towards(at(3, 4), 10 * SCALE), Some(at(6, 8)));
    assert_eq!(origin.towards(at(3, 4), -5 * SCALE), Some(at(-3, -4)));
    assert_eq!(origin.towards(at(3, 4), 0), Some(origin));
    assert_eq!(at(2, 2).towards(at(2, 9), SCALE), Some(at(2, 3)));
    // The line has the length 5792 and a bit; the quotients are rounded down.
    assert_eq!(origin.towards(at(1, 1), SCALE), Some(Point2::new(2896, 2896)));
    assert_eq!(origin.towards(at(1, 1), -SCALE), Some(Point2::new(-2897, -2897)));
    assert_eq!(origin.towards(origin, SCALE), None);
    assert_eq!(Point2::new(i32::MAX, 0).towards(origin, -SCALE), None);
    assert_eq!(Point2::new(i32::MAX, 0).towards(origin, SCALE), Some(Point2::new(i32::MAX - SCALE, 0)));
}
