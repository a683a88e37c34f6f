//! Planar geometry on fixed-point coordinates, and grids of map cells.
//!
//! Every length, coordinate and ratio of this library is a fixed-point number:
//! an `i32` that counts 4096ths. One map cell is `SCALE` wide. Sums, products
//! and squares of such numbers are taken in wider integers, so that no
//! operation here can overflow.
use vstd::prelude::*;

verus! {

/// How many steps of a fixed-point number make one whole.
pub const SCALE: i32 = 4096;

/// Square of the distance between two points, in squared 4096ths.
pub open spec fn dist2(a: Point2, b: Point2) -> int {
    (a.x - b.x) * (a.x - b.x) + (a.y - b.y) * (a.y - b.y)
}

/// The distance from `a` to `b` is the distance from `b` to `a`.
pub proof fn lemma_dist2_symmetric(a: Point2, b: Point2)
    ensures
        dist2(a, b) == dist2(b, a),
{
    let dx = a.x - b.x;
    let dy = a.y - b.y;
    assert(dx * dx == (-dx) * (-dx)) by (nonlinear_arith);
    assert(dy * dy == (-dy) * (-dy)) by (nonlinear_arith);
}

/// The column or row of the cell that holds a coordinate. Coordinates left of
/// or below the map fall to the first column or row.
pub open spec fn cell_of(c: int) -> int {
    if c < 0 {
        0
    } else {
        c / (SCALE as int)
    }
}

/// The quotient of `a` by `b`, rounded down.
pub fn quotient(a: i128, b: i128) -> (q: i128)
    requires
        0 < b < 0x1_0000_0000_0000_0000,
        -0x1_0000_0000_0000_0000_0000_0000 < a < 0x1_0000_0000_0000_0000_0000_0000,
    ensures
        q == a / b,
{
    if a >= 0 {
        a / b
    } else {
        let up: i128 = -a + b - 1;
        let c: i128 = up / b;
        proof {
            vstd::arithmetic::div_mod::lemma_fundamental_div_mod(up as int, b as int);
            let m = (up as int) % (b as int);
            assert(0 <= m < b) by {
                vstd::arithmetic::div_mod::lemma_mod_bound(up as int, b as int);
            }
            assert((-c) * b == -(c * b)) by (nonlinear_arith);
            assert(b * c == c * b) by (nonlinear_arith);
            vstd::arithmetic::div_mod::lemma_fundamental_div_mod_converse(
                a as int,
                b as int,
                -(c as int),
                b - 1 - m,
            );
            assert(0 <= c <= up) by (nonlinear_arith)
                requires
                    c == up / b,
                    up >= 0,
                    b > 0,
            ;
        }
        -c
    }
}

/// Whether `r` is the square root of `n`, rounded down.
pub open spec fn is_root(n: int, r: int) -> bool {
    0 <= r && r * r <= n < (r + 1) * (r + 1)
}

/// A number has one root only.
pub proof fn lemma_one_root(n: int, r: int, s: int)
    requires
        is_root(n, r),
        is_root(n, s),
    ensures
        r == s,
{
    if r < s {
        assert((r + 1) * (r + 1) <= s * s) by (nonlinear_arith)
            requires
                0 <= r + 1 <= s,
        ;
    } else if s < r {
        assert((s + 1) * (s + 1) <= r * r) by (nonlinear_arith)
            requires
                0 <= s + 1 <= r,
        ;
    }
}

/// The square root of `n`, rounded down; of a negative number nothing is
/// said.
pub open spec fn root_of(n: int) -> int {
    choose|r: int| is_root(n, r)
}

/// What is a root of `n` is the root of `n`.
pub proof fn lemma_root_of(n: int, r: int)
    requires
        is_root(n, r),
    ensures
        root_of(n) == r,
{
    lemma_one_root(n, r, root_of(n));
}

/// The point that lies `offset` from `a` on the line to `b`, or on the line
/// away from `b` for a negative `offset`, each coordinate rounded down to a
/// 4096th; the length of the line is taken rounded down as well. `None`
/// where `a` is `b`, so that there is no line, or where the point lies
/// outside the range of the coordinates.
pub open spec fn towards_of(a: Point2, b: Point2, offset: int) -> Option<Point2> {
    let len = root_of(dist2(a, b));
    let x = a.x + (b.x - a.x) * offset / len;
    let y = a.y + (b.y - a.y) * offset / len;
    if len > 0 && i32::MIN <= x <= i32::MAX && i32::MIN <= y <= i32::MAX {
        Some(Point2 { x: x as i32, y: y as i32 })
    } else {
        None
    }
}

/// The square root of `n`, rounded down.
pub fn root(n: u128) -> (r: u64)
    ensures
        is_root(n as int, r as int),
        r == root_of(n as int),
{
    let mut lo: u128 = 0;
    let mut hi: u128 = 0x1_0000_0000_0000_0000;
    assert(0x1_0000_0000_0000_0000int * 0x1_0000_0000_0000_0000int > u128::MAX) by (nonlinear_arith);
    while hi - lo > 1
        invariant
            lo < hi <= 0x1_0000_0000_0000_0000,
            lo * lo <= n < hi * hi,
        decreases hi - lo,
    {
        let mid: u128 = lo + (hi - lo) / 2;
        assert(mid * mid <= 0xffff_ffff_ffff_ffff * 0xffff_ffff_ffff_ffff) by (nonlinear_arith)
            requires
                0 <= mid <= 0xffff_ffff_ffff_ffff,
        ;
        if mid * mid <= n {
            lo = mid;
        } else {
            hi = mid;
        }
    }
    proof {
        lemma_root_of(n as int, lo as int);
    }
    lo as u64
}

/// Point on the map.
#[derive(Debug, Clone, Copy, PartialEq, Eq, Structural, Hash)]
pub struct Point2 {
    /// Distance from the left edge, in 4096ths.
    pub x: i32,
    /// Distance from the bottom edge, in 4096ths.
    pub y: i32,
}

impl Point2 {
    /// Point with the given fixed-point coordinates.
    pub fn new(x: i32, y: i32) -> (p: Point2)
        ensures
            p == (Point2 { x, y }),
    {
        Point2 { x, y }
    }

    /// The point moved by `dx` and `dy`, or `None` where it would leave the
    /// range of the coordinates.
    pub fn offset(self, dx: i32, dy: i32) -> (p: Option<Point2>)
        ensures
            match p {
                Some(q) => q.x == self.x + dx && q.y == self.y + dy,
                None => !(i32::MIN <= self.x + dx <= i32::MAX) || !(i32::MIN <= self.y + dy
                    <= i32::MAX),
            },
    {
        match (self.x.checked_add(dx), self.y.checked_add(dy)) {
            (Some(x), Some(y)) => Some(Point2 { x, y }),
            _ => None,
        }
    }

    /// Square of the distance to `other`.
    pub fn distance_squared(self, other: Point2) -> (d: i128)
        ensures
            d == dist2(self, other),
    {
        let dx: i128 = self.x as i128 - other.x as i128;
        let dy: i128 = self.y as i128 - other.y as i128;
        assert(dx * dx <= 0x1_0000_0000 * 0x1_0000_0000 && dx * dx >= 0) by (nonlinear_arith)
            requires
                -0x1_0000_0000 <= dx <= 0x1_0000_0000,
        ;
        assert(dy * dy <= 0x1_0000_0000 * 0x1_0000_0000 && dy * dy >= 0) by (nonlinear_arith)
            requires
                -0x1_0000_0000 <= dy <= 0x1_0000_0000,
        ;
        dx * dx + dy * dy
    }

    /// The distance to `other`, rounded down to a 4096th.
    pub fn distance(self, other: Point2) -> (d: i64)
        ensures
            is_root(dist2(self, other), d as int),
            d == root_of(dist2(self, other)),
            d <= 0x1_ffff_ffff,
    {
        let d2 = self.distance_squared(other);
        proof {
            let dx = self.x - other.x;
            let dy = self.y - other.y;
            assert(0 <= dx * dx <= 0x1_0000_0000 * 0x1_0000_0000) by (nonlinear_arith)
                requires
                    -0x1_0000_0000 <= dx <= 0x1_0000_0000,
            ;
            assert(0 <= dy * dy <= 0x1_0000_0000 * 0x1_0000_0000) by (nonlinear_arith)
                requires
                    -0x1_0000_0000 <= dy <= 0x1_0000_0000,
            ;
        }
        let r = root(d2 as u128);
        proof {
            if r >= 0x2_0000_0000 {
                assert(r * r >= 0x2_0000_0000 * 0x2_0000_0000) by (nonlinear_arith)
                    requires
                        r >= 0x2_0000_0000,
                ;
            }
        }
        r as i64
    }

    /// The point that lies `offset` from here towards `target`; see
    /// [`towards_of`].
    pub fn towards(self, target: Point2, offset: i32) -> (r: Option<Point2>)
        ensures
            r == towards_of(self, target, offset as int),
    {
        let len = self.distance(target);
        if len <= 0 {
            return None;
        }
        let dx: i128 = target.x as i128 - self.x as i128;
        let dy: i128 = target.y as i128 - self.y as i128;
        assert(-0x1_0000_0000 * 0x8000_0000 <= dx * offset <= 0x1_0000_0000 * 0x8000_0000)
            by (nonlinear_arith)
            requires
                -0x1_0000_0000 <= dx <= 0x1_0000_0000,
                -0x8000_0000 <= offset <= 0x8000_0000,
        ;
        assert(-0x1_0000_0000 * 0x8000_0000 <= dy * offset <= 0x1_0000_0000 * 0x8000_0000)
            by (nonlinear_arith)
            requires
                -0x1_0000_0000 <= dy <= 0x1_0000_0000,
                -0x8000_0000 <= offset <= 0x8000_0000,
        ;
        let qx = quotient(dx * offset as i128, len as i128);
        let qy = quotient(dy * offset as i128, len as i128);
        proof {
            let l = len as int;
            let ax = dx * offset;
            let ay = dy * offset;
            assert(-0x1_0000_0000 * 0x8000_0000 <= ax / l <= 0x1_0000_0000 * 0x8000_0000)
                by (nonlinear_arith)
                requires
                    -0x1_0000_0000 * 0x8000_0000 <= ax <= 0x1_0000_0000 * 0x8000_0000,
                    l >= 1,
            ;
            assert(-0x1_0000_0000 * 0x8000_0000 <= ay / l <= 0x1_0000_0000 * 0x8000_0000)
                by (nonlinear_arith)
                requires
                    -0x1_0000_0000 * 0x8000_0000 <= ay <= 0x1_0000_0000 * 0x8000_0000,
                    l >= 1,
            ;
        }
        let x: i128 = self.x as i128 + qx;
        let y: i128 = self.y as i128 + qy;
        if x < i32::MIN as i128 || x > i32::MAX as i128 || y < i32::MIN as i128 || y > i32::MAX as i128 {
            None
        } else {
            Some(Point2 { x: x as i32, y: y as i32 })
        }
    }

    /// Checks if `other` is no further away than `distance`.
    pub fn is_closer(self, distance: i64, other: Point2) -> (r: bool)
        ensures
            r == (dist2(self, other) <= distance * distance),
    {
        let d: i128 = distance as i128;
        assert(d * d <= 0x8000_0000_0000_0000 * 0x8000_0000_0000_0000 && d * d >= 0)
            by (nonlinear_arith)
            requires
                -0x8000_0000_0000_0000 <= d <= 0x8000_0000_0000_0000,
        ;
        self.distance_squared(other) <= d * d
    }

    /// Checks if `other` is further away than `distance`.
    pub fn is_further(self, distance: i64, other: Point2) -> (r: bool)
        ensures
            r == (dist2(self, other) > distance * distance),
    {
        !self.is_closer(distance, other)
    }

    /// Column and row of the cell that holds the point.
    pub fn cell(self) -> (c: (usize, usize))
        ensures
            c.0 == cell_of(self.x as int),
            c.1 == cell_of(self.y as int),
    {
        let cx: usize = if self.x < 0 {
            0
        } else {
            (self.x / SCALE) as usize
        };
        let cy: usize = if self.y < 0 {
            0
        } else {
            (self.y / SCALE) as usize
        };
        (cx, cy)
    }

    /// Centre of the cell in column `x` and row `y`, or `None` where the map
    /// would have to be wider than the coordinates reach.
    pub fn cell_center(x: usize, y: usize) -> (p: Option<Point2>)
        ensures
            match p {
                Some(q) => q.x == x * SCALE + SCALE / 2 && q.y == y * SCALE + SCALE / 2,
                None => x > 524287 || y > 524287,
            },
    {
        if x > 524287 || y > 524287 {
            None
        } else {
            Some(Point2 { x: (x as i32) * SCALE + SCALE / 2, y: (y as i32) * SCALE + SCALE / 2 })
        }
    }
}

/// How much of a cell the player sees.
#[derive(Debug, Clone, Copy, PartialEq, Eq, Structural, Hash)]
pub enum Visibility {
    /// Never seen.
    Hidden,
    /// Seen before, not seen now.
    Fogged,
    /// Seen now.
    Visible,
    /// Not even the terrain is shown.
    FullHidden,
}

impl Visibility {
    /// Checks if the cell is seen now.
    pub fn is_visible(self) -> (r: bool)
        ensures
            r == (self == Visibility::Visible),
    {
        matches!(self, Visibility::Visible)
    }

    /// Checks if the cell was never seen.
    pub fn is_hidden(self) -> (r: bool)
        ensures
            r == (self == Visibility::Hidden),
    {
        matches!(self, Visibility::Hidden)
    }

    /// Checks if the cell was seen before and is not seen now.
    pub fn is_fogged(self) -> (r: bool)
        ensures
            r == (self == Visibility::Fogged),
    {
        matches!(self, Visibility::Fogged)
    }

    /// Checks if not even the terrain of the cell is shown.
    pub fn is_full_hidden(self) -> (r: bool)
        ensures
            r == (self == Visibility::FullHidden),
    {
        matches!(self, Visibility::FullHidden)
    }

    /// Checks if the cell is seen now or was seen before.
    pub fn is_explored(self) -> (r: bool)
        ensures
            r == (self == Visibility::Visible || self == Visibility::Fogged),
    {
        matches!(self, Visibility::Visible | Visibility::Fogged)
    }
}

/// Rectangular grid of map cells, stored row by row.
pub struct Grid<T> {
    width: usize,
    height: usize,
    cells: Vec<T>,
}

impl<T: Copy> Grid<T> {
    /// Number of columns.
    pub closed spec fn spec_width(&self) -> int {
        self.width as int
    }

    /// Number of rows.
    pub closed spec fn spec_height(&self) -> int {
        self.height as int
    }

    /// Value of the cell in column `x` and row `y`; `None` outside the grid.
    pub closed spec fn at(&self, x: int, y: int) -> Option<T> {
        if 0 <= x < self.width && 0 <= y < self.height && y * self.width + x < self.cells.len() {
            Some(self.cells@[y * self.width + x])
        } else {
            None
        }
    }

    /// Grid of `width` columns and `height` rows with every cell set to `value`.
    /// `None` where the number of cells does not fit a `usize`.
    pub fn filled(width: usize, height: usize, value: T) -> (g: Option<Grid<T>>)
        ensures
            g.is_some() == (width * height <= usize::MAX),
            match g {
                Some(grid) => {
                    &&& grid.spec_width() == width
                    &&& grid.spec_height() == height
                    &&& forall|x: int, y: int|
                        #[trigger] grid.at(x, y) == if 0 <= x < width && 0 <= y < height {
                            Some(value)
                        } else {
                            None
                        }
                },
                None => true,
            },
    {
        match width.checked_mul(height) {
            Some(n) => {
                let mut cells: Vec<T> = Vec::new();
                let mut i: usize = 0;
                while i < n
                    invariant
                        i <= n,
                        cells.len() == i,
                        forall|k: int| 0 <= k < i ==> cells@[k] == value,
                    decreases n - i,
                {
                    cells.push(value);
                    i += 1;
                }
                let g = Grid { width, height, cells };
                assert forall|x: int, y: int|
                    #[trigger] g.at(x, y) == if 0 <= x < width && 0 <= y < height {
                        Some(value)
                    } else {
                        None
                    } by {
                    if 0 <= x < width && 0 <= y < height {
                        lemma_cell_index(x, y, width as int, height as int);
                    }
                }
                Some(g)
            },
            None => None,
        }
    }

    /// Grid of `width` columns whose rows are cut from `cells`, the bottom row
    /// first. `None` where `cells` is not `width` times `height` long.
    pub fn from_cells(width: usize, height: usize, cells: Vec<T>) -> (g: Option<Grid<T>>)
        ensures
            g.is_some() == (cells.len() == width * height),
            match g {
                Some(grid) => {
                    &&& grid.spec_width() == width
                    &&& grid.spec_height() == height
                    &&& forall|x: int, y: int|
                        #[trigger] grid.at(x, y) == if 0 <= x < width && 0 <= y < height {
                            Some(cells@[y * width + x])
                        } else {
                            None
                        }
                },
                None => true,
            },
    {
        match width.checked_mul(height) {
            Some(n) => {
                if n != cells.len() {
                    return None;
                }
                let ghost before = cells@;
                let g = Grid { width, height, cells };
                assert forall|x: int, y: int|
                    #[trigger] g.at(x, y) == if 0 <= x < width && 0 <= y < height {
                        Some(before[y * width + x])
                    } else {
                        None
                    } by {
                    if 0 <= x < width && 0 <= y < height {
                        lemma_cell_index(x, y, width as int, height as int);
                    }
                }
                Some(g)
            },
            None => None,
        }
    }

    /// Outside the grid there is no cell.
    pub proof fn lemma_outside(&self, x: int, y: int)
        requires
            x < 0 || y < 0,
        ensures
            self.at(x, y).is_none(),
    {
    }

    /// Beyond the reach of `usize` there is no cell.
    pub proof fn lemma_beyond(&self, x: int, y: int)
        requires
            x < 0 || y < 0 || x > usize::MAX || y > usize::MAX,
        ensures
            self.at(x, y).is_none(),
    {
    }

    /// Number of columns.
    pub fn width(&self) -> (w: usize)
        ensures
            w == self.spec_width(),
    {
        self.width
    }

    /// Number of rows.
    pub fn height(&self) -> (h: usize)
        ensures
            h == self.spec_height(),
    {
        self.height
    }

    /// Place of a cell in the storage, where it has one.
    fn index_of(&self, pos: (usize, usize)) -> (r: Option<usize>)
        ensures
            match r {
                Some(i) => self.at(pos.0 as int, pos.1 as int).is_some() && i == pos.1
                    * self.width + pos.0 && i < self.cells.len(),
                None => self.at(pos.0 as int, pos.1 as int).is_none(),
            },
    {
        if pos.0 < self.width && pos.1 < self.height {
            assert(pos.1 * self.width >= 0) by (nonlinear_arith)
                requires
                    pos.1 >= 0,
                    self.width >= 0,
            ;
            match pos.1.checked_mul(self.width) {
                Some(row) => match row.checked_add(pos.0) {
                    Some(i) => if i < self.cells.len() {
                        Some(i)
                    } else {
                        None
                    },
                    None => None,
                },
                None => None,
            }
        } else {
            None
        }
    }

    /// Value of the cell at `pos`, a column and a row; `None` outside the grid.
    pub fn get(&self, pos: (usize, usize)) -> (r: Option<T>)
        ensures
            r == self.at(pos.0 as int, pos.1 as int),
    {
        match self.index_of(pos) {
            Some(i) => Some(self.cells[i]),
            None => None,
        }
    }

    /// Sets the cell at `pos`, a column and a row. Outside the grid nothing
    /// changes and the result is `false`.
    pub fn set(&mut self, pos: (usize, usize), value: T) -> (done: bool)
        ensures
            final(self).spec_width() == old(self).spec_width(),
            final(self).spec_height() == old(self).spec_height(),
            done == old(self).at(pos.0 as int, pos.1 as int).is_some(),
            forall|x: int, y: int|
                #[trigger] final(self).at(x, y) == if done && x == pos.0 && y == pos.1 {
                    Some(value)
                } else {
                    old(self).at(x, y)
                },
    {
        match self.index_of(pos) {
            Some(i) => {
                let ghost w = self.width as int;
                self.cells.set(i, value);
                assert forall|x: int, y: int|
                    #[trigger] self.at(x, y) == if x == pos.0 && y == pos.1 {
                        Some(value)
                    } else {
                        old(self).at(x, y)
                    } by {
                    if 0 <= x < w && 0 <= y {
                        lemma_cell_index_injective(x, y, pos.0 as int, pos.1 as int, w);
                    }
                }
                true
            },
            None => false,
        }
    }
}

/// The index of a cell of the grid lies inside the grid's storage.
pub proof fn lemma_cell_index(x: int, y: int, width: int, height: int)
    requires
        0 <= x < width,
        0 <= y < height,
    ensures
        0 <= y * width + x < width * height,
        y * width >= 0,
{
    assert(y * width + x < width * height && y * width >= 0) by (nonlinear_arith)
        requires
            0 <= x < width,
            0 <= y < height,
    ;
}

/// Two cells of a row-major grid share an index only if they are the same cell.
pub proof fn lemma_cell_index_injective(x1: int, y1: int, x2: int, y2: int, width: int)
    requires
        0 <= x1 < width,
        0 <= x2 < width,
        0 <= y1,
        0 <= y2,
    ensures
        y1 * width + x1 == y2 * width + x2 ==> x1 == x2 && y1 == y2,
{
    assert(y1 * width + x1 == y2 * width + x2 ==> x1 == x2 && y1 == y2) by (nonlinear_arith)
        requires
            0 <= x1 < width,
            0 <= x2 < width,
            0 <= y1,
            0 <= y2,
    ;
}

} // verus!
