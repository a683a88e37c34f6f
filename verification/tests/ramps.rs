use sc2_core::geometry::Grid;
use sc2_core::ramp::{
    cell_neighbors, check_level, find_ramps, is_touching, main_ramp, middle, nearest_ramp,
    scan_slopes, Ramp, Rect,
};

fn whole(size: usize) -> Rect {
    Rect { x0: 0, y0: 0, x1: size, y1: size }
}

/// A map with a slope of `width` by `length` cells that rises along `y`.
fn slope_map(size: usize, x0: usize, y0: usize, width: usize, length: usize) -> (Grid<bool>, Grid<bool>, Grid<u8>) {
    let mut pathing = Grid::filled(size, size, true).unwrap();
    let mut placement = Grid::filled(size, size, true).unwrap();
    let mut heights = Grid::filled(size, size, 10u8).unwrap();
    for y in 0..size {
        for x in 0..size {
            if y >= y0 + length {
                heights.set((x, y), 20);
            }
        }
    }
    for x in x0..x0 + width {
        for y in y0..y0 + length {
            placement.set((x, y), false);
            heights.set((x, y), 10 + (y - y0 + 1) as u8);
        }
    }
    pathing.set((0, 0), false);
    (pathing, placement, heights)
}

#[test]
fn cells_touch_across_sides_and_corners() {
    assert!(is_touching((5, 5), (6, 6)));
    assert!(is_touching((5, 5), (4, 5)));
    assert!(is_touching((5, 5), (5, 4)));
    assert!(is_touching((0, 0), (1, 0)));
    assert!(!is_touching((5, 5), (5, 5)));
    assert!(!is_touching((5, 5), (7, 5)));
    assert!(!is_touching((5, 5), (6, 7)));
    assert_eq!(
        cell_neighbors(&vec![(0, 0), (1, 1), (3, 1), (2, 2)]),
        vec![vec![1], vec![0, 3], vec![3], vec![1, 2]]
    );
}

#[test]
fn level_ground_is_told_from_a_slope() {
    let (_, _, heights) = slope_map(12, 3, 3, 2, 4);
    assert!(check_level(&heights, 9, 1));
    assert!(!check_level(&heights, 3, 3));
    assert!(!check_level(&heights, 2, 4));
    // At the edge of the map the ground beyond counts as height nothing.
    assert!(!check_level(&heights, 0, 5));
    let flat = Grid::filled(3, 3, 0u8).unwrap();
    assert!(check_level(&flat, 0, 0));
}

#[test]
fn slope_cells_and_vision_blockers_are_found_column_by_column() {
    let (pathing, mut placement, heights) = slope_map(12, 3, 3, 2, 4);
    placement.set((9, 1), false);
    placement.set((0, 0), false);
    let (slopes, blockers) = scan_slopes(&pathing, &placement, &heights, whole(12));
    assert_eq!(
        slopes,
        vec![(3, 3), (3, 4), (3, 5), (3, 6), (4, 3), (4, 4), (4, 5), (4, 6)]
    );
    assert_eq!(blockers, vec![(9, 1)]);
    let (slopes, blockers) =
        scan_slopes(&pathing, &placement, &heights, Rect { x0: 4, y0: 4, x1: 10, y1: 6 });
    assert_eq!(slopes, vec![(4, 4), (4, 5)]);
    assert!(blockers.is_empty());
    let (slopes, blockers) =
        scan_slopes(&pathing, &placement, &heights, Rect { x0: 5, y0: 0, x1: 3, y1: 12 });
    assert!(slopes.is_empty() && blockers.is_empty());
}

#[test]
fn touching_slope_cells_make_a_ramp_if_there_are_enough() {
    let mut cells: Vec<(usize, usize)> = Vec::new();
    for x in 3..5 {
        for y in 3..7 {
            cells.push((x, y));
        }
    }
    cells.push((20, 20));
    for i in 0..7 {
        cells.push((30 + i, 30));
    }
    let ramps = find_ramps(&cells);
    assert_eq!(ramps.len(), 1);
    let mut points = ramps[0].points.clone();
    points.sort();
    let mut expected: Vec<(usize, usize)> = cells[0..8].to_vec();
    expected.sort();
    assert_eq!(points, expected);
}

#[test]
fn the_upper_edge_is_the_highest_row_of_cells() {
    let (_, _, heights) = slope_map(12, 3, 3, 2, 4);
    let mut points = Vec::new();
    for x in 3..5 {
        for y in 3..7 {
            points.push((x, y));
        }
    }
    let ramp = Ramp { points };
    assert_eq!(ramp.upper(&heights), vec![(3, 6), (4, 6)]);
    assert_eq!(ramp.upper_len(&heights), 2);
    assert_eq!(ramp.top_center(&heights), Some((3, 6)));
    let empty = Ramp { points: Vec::new() };
    assert!(empty.upper(&heights).is_empty());
    assert_eq!(empty.top_center(&heights), None);
    assert_eq!(middle(&vec![(1, 1), (2, 4), (4, 4)]), Some((2, 3)));
}

#[test]
fn the_main_ramp_is_the_nearest_of_the_right_width() {
    let heights = {
        let mut h = Grid::filled(60, 60, 0u8).unwrap();
        for x in 0..60 {
            h.set((x, 10), 5);
            h.set((x, 40), 5);
            h.set((x, 50), 5);
        }
        h
    };
    let row = |x0: usize, y: usize, width: usize| -> Ramp {
        let mut points = Vec::new();
        for x in x0..x0 + width {
            points.push((x, y - 1));
            points.push((x, y));
        }
        Ramp { points }
    };
    let ramps = vec![row(5, 10, 3), row(20, 10, 2), row(5, 40, 5), row(30, 50, 4), row(20, 40, 2)];
    assert_eq!(main_ramp(&ramps, &heights, (20, 12)), Some(1));
    assert_eq!(main_ramp(&ramps, &heights, (7, 38)), Some(2));
    assert_eq!(main_ramp(&ramps, &heights, (20, 25)), Some(1));
    assert_eq!(main_ramp(&ramps, &heights, (30, 50)), Some(4));
    assert_eq!(nearest_ramp(&ramps, &heights, (0, 0), 4, 9), Some(3));
    assert_eq!(nearest_ramp(&ramps, &heights, (0, 0), 7, 8), None);

    let wide = vec![row(5, 10, 3), row(30, 50, 4), row(5, 40, 9)];
    assert_eq!(main_ramp(&wide, &heights, (6, 35)), Some(2));
    assert_eq!(main_ramp(&wide, &heights, (40, 50)), Some(1));
    assert_eq!(main_ramp(&vec![row(5, 10, 3)], &heights, (0, 0)), None);
    assert_eq!(main_ramp(&Vec::new(), &heights, (0, 0)), None);
}

#[test]
fn the_ramps_do_not_depend_on_the_order_of_the_cells() {
    let mut cells: Vec<(usize, usize)> = Vec::new();
    for x in 3..6 {
        for y in 3..6 {
            cells.push((x, y));
        }
    }
    for x in 20..24 {
        for y in 8..10 {
            cells.push((x, y));
        }
    }
    cells.push((40, 40));
    cells.push((41, 41));
    let sets = |cells: &Vec<(usize, usize)>| -> Vec<Vec<(usize, usize)>> {
        let mut found: Vec<Vec<(usize, usize)>> = find_ramps(cells)
            .into_iter()
            .map(|r| {
                let mut points = r.points;
                points.sort();
                points
            })
            .collect();
        found.sort();
        found
    };
    let first = sets(&cells);
    assert_eq!(first.len(), 2);
    assert_eq!(first[0].len(), 9);
    assert_eq!(first[1].len(), 8);
    let mut turned = cells.clone();
    turned.reverse();
    assert_eq!(sets(&turned), first);
    let mut mixed: Vec<(usize, usize)> = Vec::new();
    for (i, c) in cells.iter().enumerate() {
        if i % 2 == 0 {
            mixed.push(*c);
        } else {
            mixed.insert(0, *c);
        }
    }
    assert_eq!(sets(&mixed), first);
}
