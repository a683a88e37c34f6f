//! Ramps: the slopes that join two levels of the map.
//!
//! A cell that units can walk on and nothing can be built on is part of a
//! slope, unless the ground around it is level: then it only blocks the
//! view. Slope cells that touch make up a ramp.
use vstd::prelude::*;
use crate::cluster_laws::symmetric;
use crate::dbscan::{clustering, dbscan, edge, graph_of, valid_graph};
use crate::geometry::Grid;

verus! {

/// Column and row of a cell.
pub type Pos = (usize, usize);

/// A ramp has at least this many cells; fewer touching slope cells are noise.
pub const MIN_RAMP_CELLS: usize = 8;

/// Part of the map, from column `x0` to before `x1` and from row `y0` to
/// before `y1`.
#[derive(Debug, Clone, Copy, PartialEq, Eq, Structural)]
#[allow(missing_docs)]
pub struct Rect {
    pub x0: usize,
    pub y0: usize,
    pub x1: usize,
    pub y1: usize,
}

/// Height of the ground at column `x` and row `y`; `0` off the map.
pub open spec fn height(heights: &Grid<u8>, x: int, y: int) -> u8 {
    match heights.at(x, y) {
        Some(h) => h,
        None => 0,
    }
}

/// Whether the flag of the cell at column `x` and row `y` is set; not so off
/// the map.
pub open spec fn flag(grid: &Grid<bool>, x: int, y: int) -> bool {
    grid.at(x, y) == Some(true)
}

/// Whether the ground is level around the cell: each of the eight cells
/// around it is as high as the cell itself.
pub open spec fn is_level(heights: &Grid<u8>, x: int, y: int) -> bool {
    forall|dx: int, dy: int|
        -1 <= dx <= 1 && -1 <= dy <= 1 ==> #[trigger] height(heights, x + dx, y + dy) == height(
            heights,
            x,
            y,
        )
}

/// Whether units can walk on the cell and nothing can be built on it.
pub open spec fn is_passage(pathing: &Grid<bool>, placement: &Grid<bool>, x: int, y: int) -> bool {
    flag(pathing, x, y) && !flag(placement, x, y)
}

/// The cells of the rows from `y0` to before `y` in column `x` that are part
/// of a slope (with `slopes`) or block the view (without), in rising order.
pub open spec fn column_cells(
    pathing: &Grid<bool>,
    placement: &Grid<bool>,
    heights: &Grid<u8>,
    x: int,
    y0: int,
    y: int,
    slopes: bool,
) -> Seq<Pos>
    decreases y - y0,
{
    if y <= y0 {
        Seq::empty()
    } else {
        let before = column_cells(pathing, placement, heights, x, y0, y - 1, slopes);
        if is_passage(pathing, placement, x, y - 1) && is_level(heights, x, y - 1) != slopes {
            before.push((x as usize, (y - 1) as usize))
        } else {
            before
        }
    }
}

/// The cells of the columns from `area.x0` to before `x` that are part of a
/// slope (with `slopes`) or block the view (without), column by column.
pub open spec fn area_cells(
    pathing: &Grid<bool>,
    placement: &Grid<bool>,
    heights: &Grid<u8>,
    area: Rect,
    x: int,
    slopes: bool,
) -> Seq<Pos>
    decreases x - area.x0,
{
    if x <= area.x0 {
        Seq::empty()
    } else {
        area_cells(pathing, placement, heights, area, x - 1, slopes) + column_cells(
            pathing,
            placement,
            heights,
            x - 1,
            area.y0 as int,
            area.y1 as int,
            slopes,
        )
    }
}

/// Height of the ground at a cell given by its column and row, each moved by
/// one or not; `0` off the map.
fn height_near(heights: &Grid<u8>, x: usize, y: usize, dx: i8, dy: i8) -> (h: u8)
    requires
        -1 <= dx <= 1,
        -1 <= dy <= 1,
    ensures
        h == height(heights, x + dx, y + dy),
{
    let nx: Option<usize> = if dx < 0 {
        x.checked_sub(1)
    } else if dx > 0 {
        x.checked_add(1)
    } else {
        Some(x)
    };
    let ny: Option<usize> = if dy < 0 {
        y.checked_sub(1)
    } else if dy > 0 {
        y.checked_add(1)
    } else {
        Some(y)
    };
    match (nx, ny) {
        (Some(a), Some(b)) => match heights.get((a, b)) {
            Some(h) => h,
            None => 0,
        },
        _ => {
            proof {
                heights.lemma_beyond(x + dx, y + dy);
            }
            0
        },
    }
}

/// Checks if the ground is level around the cell.
pub fn check_level(heights: &Grid<u8>, x: usize, y: usize) -> (r: bool)
    ensures
        r == is_level(heights, x as int, y as int),
{
    let h = height_near(heights, x, y, 0, 0);
    let mut dx: i8 = -1;
    while dx <= 1
        invariant
            -1 <= dx <= 2,
            h == height(heights, x as int, y as int),
            forall|a: int, b: int|
                -1 <= a < dx && -1 <= b <= 1 ==> #[trigger] height(heights, x + a, y + b) == h,
        decreases 2 - dx,
    {
        let mut dy: i8 = -1;
        while dy <= 1
            invariant
                -1 <= dy <= 2,
                -1 <= dx <= 1,
                h == height(heights, x as int, y as int),
                forall|a: int, b: int|
                    -1 <= a < dx && -1 <= b <= 1 ==> #[trigger] height(heights, x + a, y + b) == h,
                forall|b: int| -1 <= b < dy ==> #[trigger] height(heights, x + dx, y + b) == h,
            decreases 2 - dy,
        {
            if height_near(heights, x, y, dx, dy) != h {
                return false;
            }
            dy += 1;
        }
        dx += 1;
    }
    true
}

/// An area without rows has no cells.
proof fn lemma_no_rows(
    pathing: &Grid<bool>,
    placement: &Grid<bool>,
    heights: &Grid<u8>,
    area: Rect,
    x: int,
    slopes: bool,
)
    requires
        area.y1 <= area.y0,
    ensures
        area_cells(pathing, placement, heights, area, x, slopes) == Seq::<Pos>::empty(),
    decreases x - area.x0,
{
    if x > area.x0 {
        lemma_no_rows(pathing, placement, heights, area, x - 1, slopes);
        assert(area_cells(pathing, placement, heights, area, x, slopes) =~= Seq::<Pos>::empty());
    }
}

/// Looks at every cell of `area` and tells which are part of a slope and
/// which block the view; both column by column.
pub fn scan_slopes(pathing: &Grid<bool>, placement: &Grid<bool>, heights: &Grid<u8>, area: Rect) -> (r:
    (Vec<Pos>, Vec<Pos>))
    ensures
        r.0@ == area_cells(pathing, placement, heights, area, area.x1 as int, true),
        r.1@ == area_cells(pathing, placement, heights, area, area.x1 as int, false),
{
    let mut slopes: Vec<Pos> = Vec::new();
    let mut blockers: Vec<Pos> = Vec::new();
    if area.x1 <= area.x0 {
        return (slopes, blockers);
    }
    if area.y1 <= area.y0 {
        proof {
            lemma_no_rows(pathing, placement, heights, area, area.x1 as int, true);
            lemma_no_rows(pathing, placement, heights, area, area.x1 as int, false);
        }
        return (slopes, blockers);
    }
    let mut x: usize = area.x0;
    while x < area.x1
        invariant
            area.x0 <= x <= area.x1,
            area.y0 < area.y1,
            slopes@ == area_cells(pathing, placement, heights, area, x as int, true),
            blockers@ == area_cells(pathing, placement, heights, area, x as int, false),
        decreases area.x1 - x,
    {
        let ghost slopes0 = slopes@;
        let ghost blockers0 = blockers@;
        let mut y: usize = area.y0;
        assert(slopes0 + Seq::<Pos>::empty() =~= slopes0);
        assert(blockers0 + Seq::<Pos>::empty() =~= blockers0);
        while y < area.y1
            invariant
                area.y0 <= y <= area.y1,
                slopes@ == slopes0 + column_cells(
                    pathing,
                    placement,
                    heights,
                    x as int,
                    area.y0 as int,
                    y as int,
                    true,
                ),
                blockers@ == blockers0 + column_cells(
                    pathing,
                    placement,
                    heights,
                    x as int,
                    area.y0 as int,
                    y as int,
                    false,
                ),
            decreases area.y1 - y,
        {
            let walk = match pathing.get((x, y)) {
                Some(b) => b,
                None => false,
            };
            let build = match placement.get((x, y)) {
                Some(b) => b,
                None => false,
            };
            let ghost s_before = column_cells(
                pathing,
                placement,
                heights,
                x as int,
                area.y0 as int,
                y as int,
                true,
            );
            let ghost b_before = column_cells(
                pathing,
                placement,
                heights,
                x as int,
                area.y0 as int,
                y as int,
                false,
            );
            let ghost s_after = column_cells(
                pathing,
                placement,
                heights,
                x as int,
                area.y0 as int,
                y + 1,
                true,
            );
            let ghost b_after = column_cells(
                pathing,
                placement,
                heights,
                x as int,
                area.y0 as int,
                y + 1,
                false,
            );
            assert(walk == flag(pathing, x as int, y as int));
            assert(build == flag(placement, x as int, y as int));
            if walk && !build {
                if check_level(heights, x, y) {
                    blockers.push((x, y));
                    assert(b_after == b_before.push((x, y)));
                    assert(s_after == s_before);
                    assert(blockers@ =~= blockers0 + b_after);
                } else {
                    slopes.push((x, y));
                    assert(s_after == s_before.push((x, y)));
                    assert(b_after == b_before);
                    assert(slopes@ =~= slopes0 + s_after);
                }
            } else {
                assert(s_after == s_before);
                assert(b_after == b_before);
            }
            y += 1;
        }
        x += 1;
    }
    (slopes, blockers)
}

/// Whether two cells touch: they are different and lie no more than one
/// column and one row apart.
pub open spec fn touching(a: Pos, b: Pos) -> bool {
    a != b && a.0 <= b.0 + 1 && b.0 <= a.0 + 1 && a.1 <= b.1 + 1 && b.1 <= a.1 + 1
}

/// The places below `m` of the cells that touch the one at place `i`, in
/// rising order.
pub open spec fn touching_ones(cells: Seq<Pos>, i: int, m: int) -> Seq<usize>
    decreases m,
{
    if m <= 0 {
        Seq::empty()
    } else if touching(cells[i], cells[m - 1]) {
        touching_ones(cells, i, m - 1).push((m - 1) as usize)
    } else {
        touching_ones(cells, i, m - 1)
    }
}

/// For each cell the places of the cells that touch it.
pub open spec fn cell_graph(cells: Seq<Pos>) -> Seq<Seq<usize>> {
    Seq::new(cells.len(), |i: int| touching_ones(cells, i, cells.len() as int))
}

/// Whether the list names the place `j`.
pub open spec fn names(s: Seq<usize>, j: int) -> bool {
    exists|k: int| 0 <= k < s.len() && #[trigger] s[k] == j
}

proof fn lemma_touching_ones(cells: Seq<Pos>, i: int, m: int)
    requires
        0 <= i < cells.len(),
        0 <= m <= cells.len(),
        cells.len() <= usize::MAX,
    ensures
        forall|k: int|
            0 <= k < touching_ones(cells, i, m).len() ==> (#[trigger] touching_ones(cells, i, m)[k])
                < m,
        forall|j: int|
            0 <= j < m ==> (#[trigger] names(touching_ones(cells, i, m), j) <==> touching(
                cells[i],
                cells[j],
            )),
    decreases m,
{
    if m > 0 {
        lemma_touching_ones(cells, i, m - 1);
        let before = touching_ones(cells, i, m - 1);
        let now = touching_ones(cells, i, m);
        assert forall|j: int| 0 <= j < m implies (#[trigger] names(now, j) <==> touching(
            cells[i],
            cells[j],
        )) by {
            if names(now, j) {
                let k = choose|k: int| 0 <= k < now.len() && #[trigger] now[k] == j;
                if k < before.len() {
                    assert(before[k] == j);
                    assert(names(before, j));
                }
            }
            if touching(cells[i], cells[j]) {
                if j < m - 1 {
                    assert(names(before, j));
                    let k = choose|k: int| 0 <= k < before.len() && #[trigger] before[k] == j;
                    assert(now[k] == j);
                } else {
                    assert(now == before.push((m - 1) as usize));
                    assert(now[now.len() - 1] == j);
                }
            }
        }
    }
}

/// The graph of the cells names only cells, and touching goes both ways.
pub proof fn lemma_cell_graph(cells: Seq<Pos>)
    requires
        cells.len() <= usize::MAX,
    ensures
        valid_graph(cell_graph(cells)),
        symmetric(cell_graph(cells)),
        forall|a: int, b: int|
            0 <= a < cells.len() && 0 <= b < cells.len() ==> (#[trigger] edge(
                cell_graph(cells),
                a,
                b,
            ) <==> touching(cells[a], cells[b])),
{
    let g = cell_graph(cells);
    let n = cells.len() as int;
    assert forall|a: int, j: int| 0 <= a < g.len() && 0 <= j < g[a].len() implies (
    #[trigger] g[a][j]) < g.len() by {
        lemma_touching_ones(cells, a, n);
    }
    assert forall|a: int, b: int| 0 <= a < n && 0 <= b < n implies (#[trigger] edge(g, a, b)
        <==> touching(cells[a], cells[b])) by {
        lemma_touching_ones(cells, a, n);
        assert(g[a] == touching_ones(cells, a, n));
        assert(edge(g, a, b) == names(touching_ones(cells, a, n), b));
    }
    assert forall|a: int, b: int| #[trigger] edge(g, a, b) implies edge(g, b, a) by {
        let j = choose|j: int| 0 <= j < g[a].len() && #[trigger] g[a][j] == b;
        assert(g[a][j] < g.len());
        assert(edge(g, a, b) <==> touching(cells[a], cells[b]));
        assert(edge(g, b, a) <==> touching(cells[b], cells[a]));
    }
}

/// Checks if two cells touch.
pub fn is_touching(a: Pos, b: Pos) -> (r: bool)
    ensures
        r == touching(a, b),
{
    let dx = if a.0 >= b.0 {
        a.0 - b.0
    } else {
        b.0 - a.0
    };
    let dy = if a.1 >= b.1 {
        a.1 - b.1
    } else {
        b.1 - a.1
    };
    !(a.0 == b.0 && a.1 == b.1) && dx <= 1 && dy <= 1
}

/// For each cell the places of the cells that touch it; see [`cell_graph`].
pub fn cell_neighbors(cells: &Vec<Pos>) -> (g: Vec<Vec<usize>>)
    ensures
        graph_of(g@) == cell_graph(cells@),
{
    let n = cells.len();
    let mut g: Vec<Vec<usize>> = Vec::new();
    let mut i: usize = 0;
    while i < n
        invariant
            i <= n,
            n == cells.len(),
            g.len() == i,
            forall|a: int| 0 <= a < i ==> (#[trigger] g[a])@ == touching_ones(cells@, a, n as int),
        decreases n - i,
    {
        let mut row: Vec<usize> = Vec::new();
        let mut j: usize = 0;
        while j < n
            invariant
                j <= n,
                i < n,
                n == cells.len(),
                row@ == touching_ones(cells@, i as int, j as int),
            decreases n - j,
        {
            if is_touching(cells[i], cells[j]) {
                row.push(j);
            }
            j += 1;
        }
        g.push(row);
        i += 1;
    }
    assert(graph_of(g@) =~= cell_graph(cells@));
    g
}

/// Slope between two levels of the map.
#[derive(Debug)]
pub struct Ramp {
    /// The cells of the ramp.
    pub points: Vec<Pos>,
}

/// The cells at the places that a cluster names.
pub open spec fn cells_at(cells: Seq<Pos>, cluster: Seq<usize>) -> Seq<Pos> {
    cluster.map_values(|i: usize| cells[i as int])
}

/// The clusters that are large enough to be a ramp, in their order.
pub open spec fn ramp_clusters(clusters: Seq<Seq<usize>>) -> Seq<Seq<usize>> {
    clusters.filter(|c: Seq<usize>| c.len() >= MIN_RAMP_CELLS)
}

/// Whether `ramps` holds a ramp for each cluster that is large enough, in the
/// order of the clusters.
pub open spec fn ramps_of(ramps: Seq<Ramp>, clusters: Seq<Seq<usize>>, cells: Seq<Pos>) -> bool {
    let big = ramp_clusters(clusters);
    &&& ramps.len() == big.len()
    &&& forall|k: int| 0 <= k < ramps.len() ==> (#[trigger] ramps[k]).points@ == cells_at(cells, big[k])
}

/// The ramps that the slope cells make up: the cells are clustered by
/// touching, and each cluster of at least `MIN_RAMP_CELLS` cells is a ramp.
pub fn find_ramps(cells: &Vec<Pos>) -> (ramps: Vec<Ramp>)
    ensures
        exists|clusters: Seq<Seq<usize>>, noise: Seq<usize>|
            clustering(cell_graph(cells@), 1, clusters, noise) && ramps_of(ramps@, clusters, cells@),
{
    let g = cell_neighbors(cells);
    proof {
        assert(cells@.len() == cells.len());
        lemma_cell_graph(cells@);
    }
    let (clusters, noise) = dbscan(&g, 1);
    let ghost cl = graph_of(clusters@);
    let mut ramps: Vec<Ramp> = Vec::new();
    let mut k: usize = 0;
    assert(cl.take(0) =~= Seq::<Seq<usize>>::empty());
    while k < clusters.len()
        invariant
            k <= clusters.len(),
            cl == graph_of(clusters@),
            clustering(cell_graph(cells@), 1, cl, noise@),
            ramps_of(ramps@, cl.take(k as int), cells@),
        decreases clusters.len() - k,
    {
        let ghost seen = cl.take(k as int);
        let ghost before = ramps@;
        proof {
            reveal(Seq::filter);
            assert(cl.take(k + 1).drop_last() =~= seen);
            assert(cl.take(k + 1).last() == cl[k as int]);
            assert(cl[k as int] == clusters[k as int]@);
        }
        if clusters[k].len() >= MIN_RAMP_CELLS {
            let mut points: Vec<Pos> = Vec::new();
            let mut j: usize = 0;
            while j < clusters[k].len()
                invariant
                    j <= clusters[k as int].len(),
                    k < clusters.len(),
                    cl == graph_of(clusters@),
                    clustering(cell_graph(cells@), 1, cl, noise@),
                    points@ == cells_at(cells@, clusters[k as int]@.take(j as int)),
                decreases clusters[k as int].len() - j,
            {
                let at = clusters[k][j];
                proof {
                    assert(cl[k as int][j as int] < cell_graph(cells@).len());
                    assert(cells_at(cells@, clusters[k as int]@.take(j + 1)) =~= cells_at(
                        cells@,
                        clusters[k as int]@.take(j as int),
                    ).push(cells@[at as int]));
                }
                points.push(cells[at]);
                j += 1;
            }
            assert(clusters[k as int]@.take(clusters[k as int].len() as int) =~= clusters[k as int]@);
            ramps.push(Ramp { points });
            proof {
                let big = ramp_clusters(cl.take(k + 1));
                let big0 = ramp_clusters(seen);
                assert(big == big0.push(cl[k as int]));
                assert forall|x: int| 0 <= x < ramps@.len() implies (#[trigger] ramps@[x]).points@
                    == cells_at(cells@, big[x]) by {
                    if x < before.len() {
                        assert(ramps@[x] == before[x]);
                        assert(big[x] == big0[x]);
                    }
                }
            }
        } else {
            proof {
                assert(ramp_clusters(cl.take(k + 1)) == ramp_clusters(seen));
            }
        }
        k += 1;
    }
    assert(cl.take(clusters.len() as int) =~= cl);
    ramps
}

/// Greatest height of the ground under the first `n` cells; `0` for none.
pub open spec fn top_height(points: Seq<Pos>, heights: &Grid<u8>, n: int) -> u8
    decreases n,
{
    if n <= 0 {
        0
    } else {
        let before = top_height(points, heights, n - 1);
        let h = height(heights, points[n - 1].0 as int, points[n - 1].1 as int);
        if h > before {
            h
        } else {
            before
        }
    }
}

/// The cells among the first `n` whose ground is as high as `top`, in their
/// order.
pub open spec fn cells_at_height(points: Seq<Pos>, heights: &Grid<u8>, top: u8, n: int) -> Seq<Pos>
    decreases n,
{
    if n <= 0 {
        Seq::empty()
    } else {
        let before = cells_at_height(points, heights, top, n - 1);
        if height(heights, points[n - 1].0 as int, points[n - 1].1 as int) == top {
            before.push(points[n - 1])
        } else {
            before
        }
    }
}

/// The upper edge of a ramp: its cells on the highest ground.
pub open spec fn upper_of(points: Seq<Pos>, heights: &Grid<u8>) -> Seq<Pos> {
    cells_at_height(points, heights, top_height(points, heights, points.len() as int), points.len() as int)
}

/// Sum of the columns of the cells.
pub open spec fn sum_columns(points: Seq<Pos>) -> int
    decreases points.len(),
{
    if points.len() == 0 {
        0
    } else {
        sum_columns(points.drop_last()) + points.last().0
    }
}

/// Sum of the rows of the cells.
pub open spec fn sum_rows(points: Seq<Pos>) -> int
    decreases points.len(),
{
    if points.len() == 0 {
        0
    } else {
        sum_rows(points.drop_last()) + points.last().1
    }
}

/// The cell in the middle of some cells: the mean of their columns and of
/// their rows, rounded down. `None` for no cells.
pub open spec fn middle_of(points: Seq<Pos>) -> Option<(int, int)> {
    if points.len() == 0 {
        None
    } else {
        Some((sum_columns(points) / (points.len() as int), sum_rows(points) / (points.len() as int)))
    }
}

proof fn lemma_sums(points: Seq<Pos>)
    ensures
        0 <= sum_columns(points) <= points.len() * usize::MAX,
        0 <= sum_rows(points) <= points.len() * usize::MAX,
    decreases points.len(),
{
    if points.len() > 0 {
        lemma_sums(points.drop_last());
        assert(points.len() * usize::MAX == (points.len() - 1) * usize::MAX + usize::MAX)
            by (nonlinear_arith);
    }
}

impl Ramp {
    /// The upper edge of the ramp: its cells on the highest ground.
    pub fn upper(&self, heights: &Grid<u8>) -> (r: Vec<Pos>)
        ensures
            r@ == upper_of(self.points@, heights),
    {
        let n = self.points.len();
        let mut top: u8 = 0;
        let mut i: usize = 0;
        while i < n
            invariant
                i <= n,
                n == self.points.len(),
                top == top_height(self.points@, heights, i as int),
            decreases n - i,
        {
            let h = match heights.get(self.points[i]) {
                Some(h) => h,
                None => 0,
            };
            if h > top {
                top = h;
            }
            i += 1;
        }
        let mut r: Vec<Pos> = Vec::new();
        let mut i: usize = 0;
        while i < n
            invariant
                i <= n,
                n == self.points.len(),
                r@ == cells_at_height(self.points@, heights, top, i as int),
            decreases n - i,
        {
            let h = match heights.get(self.points[i]) {
                Some(h) => h,
                None => 0,
            };
            if h == top {
                r.push(self.points[i]);
            }
            i += 1;
        }
        r
    }

    /// Width of the upper edge in cells.
    pub fn upper_len(&self, heights: &Grid<u8>) -> (n: usize)
        ensures
            n == upper_of(self.points@, heights).len(),
    {
        self.upper(heights).len()
    }

    /// The cell in the middle of the upper edge; `None` for a ramp without
    /// cells.
    pub fn top_center(&self, heights: &Grid<u8>) -> (r: Option<Pos>)
        ensures
            match r {
                Some(c) => middle_of(upper_of(self.points@, heights)) == Some(
                    (c.0 as int, c.1 as int),
                ),
                None => middle_of(upper_of(self.points@, heights)).is_none(),
            },
    {
        let upper = self.upper(heights);
        middle(&upper)
    }
}

/// The cell in the middle of some cells; see [`middle_of`].
pub fn middle(points: &Vec<Pos>) -> (r: Option<Pos>)
    ensures
        match r {
            Some(c) => middle_of(points@) == Some((c.0 as int, c.1 as int)),
            None => middle_of(points@).is_none(),
        },
{
    let n = points.len();
    if n == 0 {
        return None;
    }
    let mut sx: u128 = 0;
    let mut sy: u128 = 0;
    let mut i: usize = 0;
    while i < n
        invariant
            i <= n,
            n == points.len(),
            sx == sum_columns(points@.take(i as int)),
            sy == sum_rows(points@.take(i as int)),
        decreases n - i,
    {
        proof {
            lemma_sums(points@.take(i as int));
            assert(points@.take(i + 1).drop_last() =~= points@.take(i as int));
            assert(i * usize::MAX <= 0xffff_ffff_ffff_ffff * 0xffff_ffff_ffff_ffff) by (nonlinear_arith)
                requires
                    i <= 0xffff_ffff_ffff_ffff,
                    usize::MAX <= 0xffff_ffff_ffff_ffff,
            ;
        }
        sx = sx + points[i].0 as u128;
        sy = sy + points[i].1 as u128;
        i += 1;
    }
    proof {
        assert(points@.take(n as int) =~= points@);
        lemma_sums(points@);
        let len = n as int;
        assert(sum_columns(points@) / len <= usize::MAX && sum_rows(points@) / len <= usize::MAX)
            by (nonlinear_arith)
            requires
                len > 0,
                0 <= sum_columns(points@) <= len * usize::MAX,
                0 <= sum_rows(points@) <= len * usize::MAX,
        ;
        assert(sum_columns(points@) / len >= 0 && sum_rows(points@) / len >= 0) by (nonlinear_arith)
            requires
                len > 0,
                0 <= sum_columns(points@),
                0 <= sum_rows(points@),
        ;
    }
    Some(((sx / (n as u128)) as usize, (sy / (n as u128)) as usize))
}

/// Square of the distance between two cells, in cells.
pub open spec fn cell_dist2(a: (int, int), b: (int, int)) -> int {
    (a.0 - b.0) * (a.0 - b.0) + (a.1 - b.1) * (a.1 - b.1)
}

/// Whether the upper edge of the ramp at place `k` is as wide as `w1` or
/// `w2` cells.
pub open spec fn has_width(ramps: Seq<Ramp>, heights: &Grid<u8>, k: int, w1: int, w2: int) -> bool {
    0 <= k < ramps.len() && (upper_of(ramps[k].points@, heights).len() == w1 || upper_of(
        ramps[k].points@,
        heights,
    ).len() == w2)
}

/// How far the middle of the upper edge of the ramp at place `k` lies from
/// the cell `loc`; squared, in cells, and no more than the greatest `u128`.
pub open spec fn ramp_distance(ramps: Seq<Ramp>, heights: &Grid<u8>, k: int, loc: Pos) -> int {
    let d = cell_dist2(
        middle_of(upper_of(ramps[k].points@, heights)).unwrap(),
        (loc.0 as int, loc.1 as int),
    );
    if d > u128::MAX {
        u128::MAX as int
    } else {
        d
    }
}

/// Whether the ramp at place `k` is the nearest to `loc` of the ramps whose
/// upper edge is `w1` or `w2` cells wide, and the first of those that are as
/// near.
pub open spec fn is_nearest(
    ramps: Seq<Ramp>,
    heights: &Grid<u8>,
    k: int,
    loc: Pos,
    w1: int,
    w2: int,
) -> bool {
    &&& has_width(ramps, heights, k, w1, w2)
    &&& forall|j: int|
        #[trigger] has_width(ramps, heights, j, w1, w2) ==> ramp_distance(ramps, heights, k, loc)
            < ramp_distance(ramps, heights, j, loc) || (ramp_distance(ramps, heights, k, loc)
            == ramp_distance(ramps, heights, j, loc) && k <= j)
}

/// The place of the nearest ramp to `loc` among those whose upper edge is
/// `w1` or `w2` cells wide; `None` where no ramp is so wide.
pub fn nearest_ramp(ramps: &Vec<Ramp>, heights: &Grid<u8>, loc: Pos, w1: usize, w2: usize) -> (r: Option<
    usize,
>)
    requires
        w1 > 0,
        w2 > 0,
    ensures
        match r {
            Some(k) => is_nearest(ramps@, heights, k as int, loc, w1 as int, w2 as int),
            None => forall|j: int| !#[trigger] has_width(ramps@, heights, j, w1 as int, w2 as int),
        },
{
    let mut best: Option<(usize, u128)> = None;
    let mut k: usize = 0;
    while k < ramps.len()
        invariant
            k <= ramps.len(),
            w1 > 0,
            w2 > 0,
            match best {
                Some((b, d)) => {
                    &&& b < k
                    &&& has_width(ramps@, heights, b as int, w1 as int, w2 as int)
                    &&& d == ramp_distance(ramps@, heights, b as int, loc)
                    &&& forall|j: int|
                        j < k && #[trigger] has_width(ramps@, heights, j, w1 as int, w2 as int)
                            ==> d < ramp_distance(ramps@, heights, j, loc) || (d == ramp_distance(
                            ramps@,
                            heights,
                            j,
                            loc,
                        ) && b <= j)
                },
                None => forall|j: int|
                    j < k ==> !#[trigger] has_width(ramps@, heights, j, w1 as int, w2 as int),
            },
        decreases ramps.len() - k,
    {
        let upper = ramps[k].upper(heights);
        if upper.len() == w1 || upper.len() == w2 {
            match middle(&upper) {
                Some(c) => {
                    let dx: u128 = if c.0 >= loc.0 {
                        (c.0 - loc.0) as u128
                    } else {
                        (loc.0 - c.0) as u128
                    };
                    let dy: u128 = if c.1 >= loc.1 {
                        (c.1 - loc.1) as u128
                    } else {
                        (loc.1 - c.1) as u128
                    };
                    assert(dx * dx <= 0xffff_ffff_ffff_ffff * 0xffff_ffff_ffff_ffff && dy * dy
                        <= 0xffff_ffff_ffff_ffff * 0xffff_ffff_ffff_ffff) by (nonlinear_arith)
                        requires
                            dx <= 0xffff_ffff_ffff_ffff,
                            dy <= 0xffff_ffff_ffff_ffff,
                    ;
                    let d: u128 = (dx * dx).saturating_add(dy * dy);
                    proof {
                        let a = c.0 - loc.0;
                        let b = c.1 - loc.1;
                        assert(dx * dx == a * a) by (nonlinear_arith)
                            requires
                                dx == a || dx == -a,
                        ;
                        assert(dy * dy == b * b) by (nonlinear_arith)
                            requires
                                dy == b || dy == -b,
                        ;
                        assert(d == ramp_distance(ramps@, heights, k as int, loc));
                    }
                    let better = match best {
                        Some((_, least)) => d < least,
                        None => true,
                    };
                    if better {
                        best = Some((k, d));
                    }
                },
                None => {},
            }
        }
        k += 1;
    }
    match best {
        Some((b, _)) => Some(b),
        None => None,
    }
}

/// The place of the main ramp of the base at the cell `loc`: the nearest
/// ramp whose upper edge is 2 or 5 cells wide; where no ramp is so wide, the
/// nearest whose upper edge is 4 or 9 cells wide.
pub fn main_ramp(ramps: &Vec<Ramp>, heights: &Grid<u8>, loc: Pos) -> (r: Option<usize>)
    ensures
        match r {
            Some(k) => is_nearest(ramps@, heights, k as int, loc, 2, 5) || ((forall|j: int|
                !#[trigger] has_width(ramps@, heights, j, 2, 5)) && is_nearest(
                ramps@,
                heights,
                k as int,
                loc,
                4,
                9,
            )),
            None => (forall|j: int| !#[trigger] has_width(ramps@, heights, j, 2, 5)) && (forall|
                j: int,
            | !#[trigger] has_width(ramps@, heights, j, 4, 9)),
        },
{
    match nearest_ramp(ramps, heights, loc, 2, 5) {
        Some(k) => Some(k),
        None => nearest_ramp(ramps, heights, loc, 4, 9),
    }
}

} // verus!
