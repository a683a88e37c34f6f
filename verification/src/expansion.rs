//! Where bases can stand: groups of resources and the place for a main
//! building next to each.
use vstd::prelude::*;
use crate::cluster_laws::symmetric;
use crate::dbscan::{clustering, dbscan, edge, graph_of, valid_graph};
use crate::game_data::GameData;
use crate::game_state::Alliance;
use crate::geometry::{cell_of, dist2, quotient, Grid, Point2, SCALE};
use crate::ids::UnitTypeId;
use crate::order::{lemma_rising_order, rising_order, sorted_order};
use crate::tags::{OrderedTags, TagSet};
use crate::unit::{DisplayType, UnitView};
use crate::units::Units;

verus! {

/// Resources that lie no further apart than this belong together; in 4096ths.
pub const RESOURCE_SPREAD: i64 = 34816;

/// Resources whose ground differs by more than this in height do not belong
/// together.
pub const HEIGHT_DIFFERENCE: u8 = 2;

/// A group of resources whose centre lies no further than this from a
/// start location is the base at that start; in 4096ths.
pub const START_RADIUS: i64 = 16384;

/// Resources no further than this from a start location make up the start
/// site; in 4096ths.
pub const START_RESOURCES: i64 = 45056;

/// A main building stands at least this far from each mineral field; in
/// 4096ths.
pub const MINERAL_CLEARANCE: i64 = 24576;

/// A main building stands at least this far from each geyser; in 4096ths.
pub const GEYSER_CLEARANCE: i64 = 28672;

/// Places for a main building are looked for up to this many cells to each
/// side of the resources' centre.
pub const OFFSET: i32 = 7;

/// Number of cells in a row of the search.
pub const RING_SIDE: i32 = 15;

/// Number of cells that the search looks at.
pub const RING_CELLS: i32 = 225;

/// Resource as the search for bases sees it.
#[derive(Debug, Clone, Copy, PartialEq, Eq, Structural)]
pub struct Resource {
    /// Tag of the resource.
    pub tag: u64,
    /// Position of the resource.
    pub position: Point2,
    /// Whether the resource is a geyser.
    pub geyser: bool,
    /// Height of the ground under the resource.
    pub height: u8,
}

/// A start location and the centre of the resources around it.
#[derive(Debug, Clone, Copy, PartialEq, Eq, Structural)]
pub struct StartSite {
    /// Where the main building stands.
    pub location: Point2,
    /// Centre of the start location and the resources around it.
    pub center: Point2,
}

/// Place for a base.
pub struct Expansion {
    /// Where the main building can stand.
    pub loc: Point2,
    /// Centre of the resources.
    pub center: Point2,
    /// Tags of the mineral fields of the base, the nearest to `loc` first.
    pub minerals: OrderedTags,
    /// Tags of the geysers of the base.
    pub geysers: TagSet,
    /// Who holds the base: nobody, the bot or the opponent.
    pub alliance: Alliance,
    /// Tag of the main building that stands on the base, if one does.
    pub base: Option<u64>,
}

/// What an [`Expansion`] holds.
pub struct ExpansionView {
    /// See [`Expansion::loc`].
    pub loc: Point2,
    /// See [`Expansion::center`].
    pub center: Point2,
    /// See [`Expansion::minerals`].
    pub minerals: Seq<u64>,
    /// See [`Expansion::geysers`].
    pub geysers: Set<u64>,
    /// See [`Expansion::alliance`].
    pub alliance: Alliance,
    /// See [`Expansion::base`].
    pub base: Option<u64>,
}

impl View for Expansion {
    type V = ExpansionView;

    open spec fn view(&self) -> ExpansionView {
        ExpansionView {
            loc: self.loc,
            center: self.center,
            minerals: self.minerals@,
            geysers: self.geysers@,
            alliance: self.alliance,
            base: self.base,
        }
    }
}

impl Expansion {
    /// Whether the expansion is one that the functions of this library keep.
    pub open spec fn wf(&self) -> bool {
        self.minerals.wf()
    }
}

/// Why no place for a base was found.
#[derive(Debug, Clone, Copy, PartialEq, Eq, Structural)]
pub enum ExpansionError {
    /// A group without resources has no centre.
    NoResources,
    /// No cell around the resources with this centre is free for a main
    /// building and far enough from every resource.
    NoPlacement(Point2),
}

/// Sum of the `x` coordinates of the resources.
pub open spec fn sum_x(s: Seq<Resource>) -> int
    decreases s.len(),
{
    if s.len() == 0 {
        0
    } else {
        sum_x(s.drop_last()) + s.last().position.x
    }
}

/// Sum of the `y` coordinates of the resources.
pub open spec fn sum_y(s: Seq<Resource>) -> int
    decreases s.len(),
{
    if s.len() == 0 {
        0
    } else {
        sum_y(s.drop_last()) + s.last().position.y
    }
}

/// Centre of the cell that holds the coordinate `c`.
pub open spec fn centered(c: int) -> int {
    (c / (SCALE as int)) * SCALE + SCALE / 2
}

/// Mean of the positions of the resources, rounded down to a 4096th; the
/// origin where there are none.
pub open spec fn centroid(s: Seq<Resource>) -> (int, int) {
    if s.len() == 0 {
        (0, 0)
    } else {
        (sum_x(s) / (s.len() as int), sum_y(s) / (s.len() as int))
    }
}

/// Centre of the cell that holds the mean of the positions of the resources.
pub open spec fn resources_center(s: Seq<Resource>) -> Point2 {
    Point2 { x: centered(centroid(s).0) as i32, y: centered(centroid(s).1) as i32 }
}

/// The geysers among the resources, in their order.
pub open spec fn geysers_of(s: Seq<Resource>) -> Seq<Resource> {
    s.filter(|r: Resource| r.geyser)
}

/// The mineral fields among the resources, in their order.
pub open spec fn minerals_of(s: Seq<Resource>) -> Seq<Resource> {
    s.filter(|r: Resource| !r.geyser)
}

/// Centre of a group of resources. Where the group holds geysers and
/// mineral fields, the mean of the geysers and the mean of the mineral fields
/// count the same, however many there are of each.
pub open spec fn cluster_center(s: Seq<Resource>) -> Point2 {
    let g = geysers_of(s);
    let m = minerals_of(s);
    if g.len() > 0 && m.len() > 0 {
        Point2 {
            x: centered((centroid(g).0 + centroid(m).0) / 2) as i32,
            y: centered((centroid(g).1 + centroid(m).1) / 2) as i32,
        }
    } else {
        resources_center(s)
    }
}

/// How far a main building has to stand from the resource, at least.
pub open spec fn clearance(r: Resource) -> int {
    if r.geyser {
        GEYSER_CLEARANCE as int
    } else {
        MINERAL_CLEARANCE as int
    }
}

/// Whether a main building at `pos` is far enough from every resource.
pub open spec fn clear_of(pos: Point2, s: Seq<Resource>) -> bool {
    forall|i: int| 0 <= i < s.len() ==> dist2(pos, (#[trigger] s[i]).position) >= clearance(s[i])
        * clearance(s[i])
}

/// Square of the distance from `pos` to the furthest resource.
pub open spec fn spread(pos: Point2, s: Seq<Resource>) -> int
    decreases s.len(),
{
    if s.len() == 0 {
        0
    } else {
        let before = spread(pos, s.drop_last());
        let d = dist2(pos, s.last().position);
        if d > before {
            d
        } else {
            before
        }
    }
}

/// Number of offsets that the search tries: every pair of whole numbers from
/// `-OFFSET` to `OFFSET`.
pub open spec fn ring_len() -> int {
    RING_CELLS as int
}

/// The offset that the search tries at place `k`, in cells: the first
/// coordinate changes slowest.
pub open spec fn ring_offset(k: int) -> (int, int) {
    (k / (RING_SIDE as int) - OFFSET, k % (RING_SIDE as int) - OFFSET)
}

/// Whether an offset lies in the ring in which a main building can stand:
/// more than 4 and at most 8 cells from the centre.
pub open spec fn in_ring(dx: int, dy: int) -> bool {
    16 < dx * dx + dy * dy <= 64
}

/// The point at place `k` of the search around `center`, where it has one:
/// the offset lies in the ring and the point within the coordinates' range.
pub open spec fn candidate(center: Point2, k: int) -> Option<Point2> {
    let (dx, dy) = ring_offset(k);
    let x = center.x + dx * SCALE;
    let y = center.y + dy * SCALE;
    if 0 <= k < ring_len() && in_ring(dx, dy) && i32::MIN <= x <= i32::MAX && i32::MIN <= y
        <= i32::MAX {
        Some(Point2 { x: x as i32, y: y as i32 })
    } else {
        None
    }
}

/// Whether a main building can stand at place `k` of the search: the cell is
/// free to build on and far enough from every resource.
pub open spec fn fits(center: Point2, k: int, s: Seq<Resource>, placement: &Grid<bool>) -> bool {
    match candidate(center, k) {
        Some(pos) => placement.at(cell_of(pos.x as int), cell_of(pos.y as int)) == Some(true)
            && clear_of(pos, s),
        None => false,
    }
}

/// Whether place `k` of the search is the place for the main building: one
/// can stand there, and at no place where one can stand is the furthest
/// resource nearer, nor as near at an earlier place.
pub open spec fn is_best(center: Point2, k: int, s: Seq<Resource>, placement: &Grid<bool>) -> bool {
    &&& fits(center, k, s, placement)
    &&& forall|j: int|
        0 <= j < ring_len() && #[trigger] fits(center, j, s, placement) ==> {
            let a = spread(candidate(center, k).unwrap(), s);
            let b = spread(candidate(center, j).unwrap(), s);
            a < b || (a == b && k <= j)
        }
}

/// The tags of `tags` in their order, each once: a tag that stood there
/// before is left out.
pub open spec fn each_once(tags: Seq<u64>) -> Seq<u64>
    decreases tags.len(),
{
    if tags.len() == 0 {
        Seq::empty()
    } else {
        let before = each_once(tags.drop_last());
        if before.contains(tags.last()) {
            before
        } else {
            before.push(tags.last())
        }
    }
}

/// Squares of the distances from `loc` to the resources, in their order.
pub open spec fn distances(s: Seq<Resource>, loc: Point2) -> Seq<i128> {
    s.map_values(|r: Resource| dist2(r.position, loc) as i128)
}

/// The tags of the mineral fields among the resources, the nearest to `loc`
/// first; fields that are equally near stand in their order.
pub open spec fn minerals_by_distance(s: Seq<Resource>, loc: Point2) -> Seq<u64> {
    let m = minerals_of(s);
    each_once(
        rising_order(distances(m, loc), m.len()).map_values(|k: usize| m[k as int].tag),
    )
}

/// The tags of the geysers among the resources.
pub open spec fn geyser_tags(s: Seq<Resource>) -> Set<u64> {
    Set::new(|t: u64| exists|i: int| 0 <= i < s.len() && s[i].geyser && s[i].tag == t)
}

/// Whether `e` is the base of the resources `s`.
///
/// A group whose centre is no further than `START_RADIUS` from where the bot
/// started is the bot's base and stands exactly there; one as near to where
/// the opponent started is the opponent's. For any other the place is searched in the ring around
/// the resources' centre.
pub open spec fn is_site_of(
    e: ExpansionView,
    s: Seq<Resource>,
    placement: &Grid<bool>,
    start: StartSite,
    enemy_start: StartSite,
    townhall: Option<u64>,
) -> bool {
    let center = cluster_center(s);
    &&& e.minerals == minerals_by_distance(s, e.loc)
    &&& e.geysers == geyser_tags(s)
    &&& if dist2(center, start.location) <= START_RADIUS * START_RADIUS {
        e.loc == start.location && e.center == start.center && e.alliance == Alliance::Own
            && e.base == townhall
    } else if dist2(center, enemy_start.location) <= START_RADIUS * START_RADIUS {
        e.loc == enemy_start.location && e.center == enemy_start.center && e.alliance
            == Alliance::Enemy && e.base.is_none()
    } else {
        e.center == center && e.alliance == Alliance::Neutral && e.base.is_none() && exists|
            k: int,
        |
            is_best(resources_center(s), k, s, placement) && candidate(resources_center(s), k)
                == Some(e.loc)
    }
}

/// Whether the resources are neither at a start site nor have a place for a
/// main building around them.
pub open spec fn has_no_site(
    s: Seq<Resource>,
    placement: &Grid<bool>,
    start: StartSite,
    enemy_start: StartSite,
) -> bool {
    let center = cluster_center(s);
    &&& dist2(center, start.location) > START_RADIUS * START_RADIUS
    &&& dist2(center, enemy_start.location) > START_RADIUS * START_RADIUS
    &&& forall|k: int| 0 <= k < ring_len() ==> !#[trigger] fits(resources_center(s), k, s, placement)
}

proof fn lemma_sums_bounded(s: Seq<Resource>)
    ensures
        -0x8000_0000 * s.len() <= sum_x(s) <= 0x7fff_ffff * s.len(),
        -0x8000_0000 * s.len() <= sum_y(s) <= 0x7fff_ffff * s.len(),
    decreases s.len(),
{
    if s.len() > 0 {
        lemma_sums_bounded(s.drop_last());
        assert(-0x8000_0000 * s.len() == -0x8000_0000 * (s.len() - 1) - 0x8000_0000)
            by (nonlinear_arith);
        assert(0x7fff_ffff * s.len() == 0x7fff_ffff * (s.len() - 1) + 0x7fff_ffff)
            by (nonlinear_arith);
    }
}

/// Mean of the positions of the resources, rounded down to a 4096th; the
/// origin where there are none.
pub fn mean_of(s: &Vec<Resource>) -> (c: (i32, i32))
    ensures
        c.0 == centroid(s@).0,
        c.1 == centroid(s@).1,
{
    if s.len() == 0 {
        return (0, 0);
    }
    let mut sx: i128 = 0;
    let mut sy: i128 = 0;
    let mut i: usize = 0;
    while i < s.len()
        invariant
            i <= s.len(),
            sx == sum_x(s@.take(i as int)),
            sy == sum_y(s@.take(i as int)),
        decreases s.len() - i,
    {
        proof {
            lemma_sums_bounded(s@.take(i as int));
            assert(s@.take(i + 1).drop_last() =~= s@.take(i as int));
            assert(0x8000_0000 * (i as int) <= 0x8000_0000 * 0x1_0000_0000_0000_0000)
                by (nonlinear_arith)
                requires
                    i <= 0x1_0000_0000_0000_0000,
            ;
        }
        sx = sx + s[i].position.x as i128;
        sy = sy + s[i].position.y as i128;
        i += 1;
    }
    proof {
        assert(s@.take(s.len() as int) =~= s@);
        lemma_sums_bounded(s@);
    }
    let n = s.len() as i128;
    let qx = quotient(sx, n);
    let qy = quotient(sy, n);
    proof {
        let len = s.len() as int;
        assert(-0x8000_0000 <= sum_x(s@) / len <= 0x7fff_ffff) by (nonlinear_arith)
            requires
                len > 0,
                -0x8000_0000 * len <= sum_x(s@) <= 0x7fff_ffff * len,
        ;
        assert(-0x8000_0000 <= sum_y(s@) / len <= 0x7fff_ffff) by (nonlinear_arith)
            requires
                len > 0,
                -0x8000_0000 * len <= sum_y(s@) <= 0x7fff_ffff * len,
        ;
    }
    (qx as i32, qy as i32)
}

/// Centre of the cell that holds the coordinate `c`.
pub fn center_of_cell(c: i32) -> (r: i32)
    ensures
        r == centered(c as int),
{
    let q = quotient(c as i128, SCALE as i128);
    assert(-524288 <= (c as int) / 4096 <= 524287) by (nonlinear_arith)
        requires
            -0x8000_0000 <= c <= 0x7fff_ffff,
    ;
    (q * (SCALE as i128) + (SCALE / 2) as i128) as i32
}

/// The resources with or without the geysers taken out: with `geysers`, the
/// geysers; without, the mineral fields.
pub fn pick_kind(s: &Vec<Resource>, geysers: bool) -> (r: Vec<Resource>)
    ensures
        r@ == if geysers {
            geysers_of(s@)
        } else {
            minerals_of(s@)
        },
{
    let mut r: Vec<Resource> = Vec::new();
    let mut i: usize = 0;
    while i < s.len()
        invariant
            i <= s.len(),
            r@ == if geysers {
                geysers_of(s@.take(i as int))
            } else {
                minerals_of(s@.take(i as int))
            },
        decreases s.len() - i,
    {
        proof {
            reveal(Seq::filter);
            assert(s@.take(i + 1).drop_last() =~= s@.take(i as int));
        }
        if s[i].geyser == geysers {
            r.push(s[i]);
        }
        i += 1;
    }
    assert(s@.take(s.len() as int) =~= s@);
    r
}

/// Centre of a group of resources; see [`cluster_center`].
pub fn center_of(s: &Vec<Resource>) -> (c: (Point2, Point2))
    ensures
        c.0 == resources_center(s@),
        c.1 == cluster_center(s@),
{
    let all = mean_of(s);
    let whole = Point2 { x: center_of_cell(all.0), y: center_of_cell(all.1) };
    let g = pick_kind(s, true);
    let m = pick_kind(s, false);
    if g.len() > 0 && m.len() > 0 {
        let gc = mean_of(&g);
        let mc = mean_of(&m);
        let mx = quotient(gc.0 as i128 + mc.0 as i128, 2);
        let my = quotient(gc.1 as i128 + mc.1 as i128, 2);
        (whole, Point2 { x: center_of_cell(mx as i32), y: center_of_cell(my as i32) })
    } else {
        (whole, whole)
    }
}

/// Checks if a main building at `pos` is far enough from every resource, and
/// tells the square of the distance to the furthest.
pub fn measure(pos: Point2, s: &Vec<Resource>) -> (r: (bool, i128))
    ensures
        r.0 == clear_of(pos, s@),
        r.1 == spread(pos, s@),
{
    let mut clear = true;
    let mut far: i128 = 0;
    let mut i: usize = 0;
    while i < s.len()
        invariant
            i <= s.len(),
            clear == clear_of(pos, s@.take(i as int)),
            far == spread(pos, s@.take(i as int)),
            0 <= far,
        decreases s.len() - i,
    {
        let ghost seen = s@.take(i as int);
        assert(s@.take(i + 1).drop_last() =~= seen);
        let d = pos.distance_squared(s[i].position);
        let least: i128 = if s[i].geyser {
            GEYSER_CLEARANCE as i128
        } else {
            MINERAL_CLEARANCE as i128
        };
        assert(0 <= least * least <= 28672 * 28672) by (nonlinear_arith)
            requires
                0 <= least <= 28672,
        ;
        let need: i128 = least * least;
        proof {
            let next = s@.take(i + 1);
            assert(next[i as int] == s@[i as int]);
            if clear && d >= need {
                assert forall|k: int| 0 <= k < next.len() implies dist2(
                    pos,
                    (#[trigger] next[k]).position,
                ) >= clearance(next[k]) * clearance(next[k]) by {
                    if k < i {
                        assert(seen[k] == next[k]);
                    }
                }
            } else if !clear {
                let k = choose|k: int|
                    0 <= k < seen.len() && !(dist2(pos, (#[trigger] seen[k]).position) >= clearance(
                        seen[k],
                    ) * clearance(seen[k]));
                assert(next[k] == seen[k]);
            }
        }
        if d < need {
            clear = false;
        }
        if d > far {
            far = d;
        }
        i += 1;
    }
    assert(s@.take(s.len() as int) =~= s@);
    (clear, far)
}

/// Looks around `center` for the place of a main building; see [`is_best`].
pub fn search_ring(center: Point2, s: &Vec<Resource>, placement: &Grid<bool>) -> (r: Option<Point2>)
    ensures
        match r {
            Some(loc) => exists|k: int|
                is_best(center, k, s@, placement) && candidate(center, k) == Some(loc),
            None => forall|k: int| 0 <= k < ring_len() ==> !#[trigger] fits(center, k, s@, placement),
        },
{
    let mut best: Option<(Point2, i128)> = None;
    let ghost mut best_k: int = 0;
    let mut k: i32 = 0;
    while k < RING_CELLS
        invariant
            0 <= k <= RING_CELLS,
            match best {
                Some((loc, far)) => {
                    &&& 0 <= best_k < k
                    &&& fits(center, best_k, s@, placement)
                    &&& candidate(center, best_k) == Some(loc)
                    &&& far == spread(loc, s@)
                    &&& forall|j: int|
                        0 <= j < k && #[trigger] fits(center, j, s@, placement) ==> {
                            let b = spread(candidate(center, j).unwrap(), s@);
                            far < b || (far == b && best_k <= j)
                        }
                },
                None => forall|j: int| 0 <= j < k ==> !#[trigger] fits(center, j, s@, placement),
            },
        decreases RING_CELLS - k,
    {
        let dx: i32 = k / RING_SIDE - OFFSET;
        let dy: i32 = k % RING_SIDE - OFFSET;
        assert(0 <= dx * dx <= 49 && 0 <= dy * dy <= 49) by (nonlinear_arith)
            requires
                -7 <= dx <= 7,
                -7 <= dy <= 7,
        ;
        let d: i32 = dx * dx + dy * dy;
        let mut found: Option<(Point2, i128)> = None;
        if 16 < d && d <= 64 {
            match center.offset(dx * SCALE, dy * SCALE) {
                Some(pos) => {
                    let free = match placement.get(pos.cell()) {
                        Some(b) => b,
                        None => false,
                    };
                    if free {
                        let (clear, far) = measure(pos, s);
                        if clear {
                            found = Some((pos, far));
                        }
                    }
                },
                None => {},
            }
        }
        assert(found.is_some() == fits(center, k as int, s@, placement));
        assert(found.is_some() ==> candidate(center, k as int) == Some(found.unwrap().0)
            && found.unwrap().1 == spread(found.unwrap().0, s@));
        match found {
            Some((pos, far)) => {
                let better = match best {
                    Some((_, least)) => far < least,
                    None => true,
                };
                if better {
                    best = Some((pos, far));
                    proof {
                        best_k = k as int;
                    }
                }
            },
            None => {},
        }
        k += 1;
    }
    match best {
        Some((loc, _)) => {
            assert(is_best(center, best_k, s@, placement));
            Some(loc)
        },
        None => None,
    }
}

/// The base of a group of resources; see [`is_site_of`]. `townhall` is the
/// tag of the bot's first main building, if it has one.
pub fn site_for(
    s: &Vec<Resource>,
    placement: &Grid<bool>,
    start: StartSite,
    enemy_start: StartSite,
    townhall: Option<u64>,
) -> (r: Result<Expansion, ExpansionError>)
    ensures
        match r {
            Ok(e) => s@.len() > 0 && e.wf() && is_site_of(
                e@,
                s@,
                placement,
                start,
                enemy_start,
                townhall,
            ),
            Err(ExpansionError::NoResources) => s@.len() == 0,
            Err(ExpansionError::NoPlacement(c)) => s@.len() > 0 && c == cluster_center(s@)
                && has_no_site(s@, placement, start, enemy_start),
        },
{
    if s.len() == 0 {
        return Err(ExpansionError::NoResources);
    }
    let (whole, center) = center_of(s);
    let (loc, center, alliance, base) = if center.is_closer(START_RADIUS, start.location) {
        (start.location, start.center, Alliance::Own, townhall)
    } else if center.is_closer(START_RADIUS, enemy_start.location) {
        (enemy_start.location, enemy_start.center, Alliance::Enemy, None)
    } else {
        match search_ring(whole, s, placement) {
            Some(loc) => (loc, center, Alliance::Neutral, None),
            None => {
                return Err(ExpansionError::NoPlacement(center));
            },
        }
    };
    let fields = pick_kind(s, false);
    let mut keys: Vec<i128> = Vec::new();
    let mut i: usize = 0;
    while i < fields.len()
        invariant
            i <= fields.len(),
            keys@ == distances(fields@.take(i as int), loc),
        decreases fields.len() - i,
    {
        keys.push(fields[i].position.distance_squared(loc));
        assert(distances(fields@.take(i + 1), loc) =~= distances(fields@.take(i as int), loc).push(
            dist2(fields@[i as int].position, loc) as i128,
        ));
        i += 1;
    }
    assert(fields@.take(fields.len() as int) =~= fields@);
    let order = sorted_order(&keys);
    proof {
        crate::order::lemma_rising_order(keys@, keys@.len());
        assert forall|k: int| 0 <= k < order.len() implies (#[trigger] order[k]) < fields.len() by {
            assert(order@.contains(order@[k]));
        }
    }
    let mut minerals = OrderedTags::new();
    let ghost sorted_tags = order@.map_values(|k: usize| fields@[k as int].tag);
    let mut i: usize = 0;
    while i < order.len()
        invariant
            i <= order.len(),
            order.len() == fields.len(),
            forall|k: int| 0 <= k < order.len() ==> (#[trigger] order[k]) < fields.len(),
            sorted_tags == order@.map_values(|k: usize| fields@[k as int].tag),
            minerals.wf(),
            minerals@ == each_once(sorted_tags.take(i as int)),
        decreases order.len() - i,
    {
        assert(sorted_tags.take(i + 1).drop_last() =~= sorted_tags.take(i as int));
        assert(sorted_tags[i as int] == fields@[order@[i as int] as int].tag);
        minerals.insert(fields[order[i]].tag);
        i += 1;
    }
    assert(sorted_tags.take(order.len() as int) =~= sorted_tags);
    let mut geysers = TagSet::new();
    let mut i: usize = 0;
    while i < s.len()
        invariant
            i <= s.len(),
            geysers@ == geyser_tags(s@.take(i as int)),
        decreases s.len() - i,
    {
        let ghost seen = s@.take(i as int);
        let ghost next = s@.take(i + 1);
        if s[i].geyser {
            geysers.insert(s[i].tag);
        }
        proof {
            assert forall|t: u64| geysers@.contains(t) == geyser_tags(next).contains(t) by {
                if geyser_tags(seen).contains(t) {
                    let j = choose|j: int| 0 <= j < seen.len() && seen[j].geyser && seen[j].tag == t;
                    assert(next[j] == seen[j]);
                }
                if geyser_tags(next).contains(t) {
                    let j = choose|j: int| 0 <= j < next.len() && next[j].geyser && next[j].tag == t;
                    if j < i {
                        assert(seen[j] == next[j]);
                    }
                }
                if s[i as int].geyser && t == s[i as int].tag {
                    assert(next[i as int] == s@[i as int]);
                }
            }
            assert(geysers@ =~= geyser_tags(next));
        }
        i += 1;
    }
    assert(s@.take(s.len() as int) =~= s@);
    Ok(Expansion { loc, center, minerals, geysers, alliance, base })
}

/// Height of the ground under a point; `0` off the map.
pub open spec fn height_at(heights: &Grid<u8>, p: Point2) -> u8 {
    match heights.at(cell_of(p.x as int), cell_of(p.y as int)) {
        Some(h) => h,
        None => 0,
    }
}

/// The resource that a unit is.
pub open spec fn resource_of(u: UnitView, data: &GameData, heights: &Grid<u8>) -> Resource {
    Resource {
        tag: u.tag,
        position: u.position,
        geyser: u.is_geyser(data),
        height: height_at(heights, u.position),
    }
}

/// The resources among which bases are looked for: every resource but the
/// small mineral fields that block a path.
pub open spec fn base_resources(units: Seq<UnitView>, data: &GameData, heights: &Grid<u8>) -> Seq<
    Resource,
>
    decreases units.len(),
{
    if units.len() == 0 {
        Seq::empty()
    } else if units.last().type_id == UnitTypeId::MineralField450 {
        base_resources(units.drop_last(), data, heights)
    } else {
        base_resources(units.drop_last(), data, heights).push(
            resource_of(units.last(), data, heights),
        )
    }
}

/// The resources among which bases are looked for; see [`base_resources`].
pub fn resources_from(units: &Units, data: &GameData, heights: &Grid<u8>) -> (r: Vec<Resource>)
    ensures
        r@ == base_resources(units@, data, heights),
{
    let mut r: Vec<Resource> = Vec::new();
    let n = units.len();
    let mut i: usize = 0;
    while i < n
        invariant
            i <= n,
            n == units@.len(),
            r@ == base_resources(units@.take(i as int), data, heights),
        decreases n - i,
    {
        match units.get_index(i) {
            Some(u) => {
                assert(units@.take(i + 1).drop_last() =~= units@.take(i as int));
                if u.type_id != UnitTypeId::MineralField450 {
                    let height = match heights.get(u.position.cell()) {
                        Some(h) => h,
                        None => 0,
                    };
                    r.push(
                        Resource {
                            tag: u.tag,
                            position: u.position,
                            geyser: u.is_geyser(data),
                            height,
                        },
                    );
                }
            },
            None => {},
        }
        i += 1;
    }
    assert(units@.take(n as int) =~= units@);
    r
}

/// Every resource of the map, the small mineral fields that block a path
/// too.
pub open spec fn every_resource(units: Seq<UnitView>, data: &GameData, heights: &Grid<u8>) -> Seq<
    Resource,
> {
    units.map_values(|u: UnitView| resource_of(u, data, heights))
}

/// Every resource of the map; see [`every_resource`].
pub fn every_resource_from(units: &Units, data: &GameData, heights: &Grid<u8>) -> (r: Vec<Resource>)
    ensures
        r@ == every_resource(units@, data, heights),
{
    let mut r: Vec<Resource> = Vec::new();
    let n = units.len();
    let mut i: usize = 0;
    while i < n
        invariant
            i <= n,
            n == units@.len(),
            r@ == every_resource(units@.take(i as int), data, heights),
        decreases n - i,
    {
        match units.get_index(i) {
            Some(u) => {
                let height = match heights.get(u.position.cell()) {
                    Some(h) => h,
                    None => 0,
                };
                r.push(
                    Resource { tag: u.tag, position: u.position, geyser: u.is_geyser(data), height },
                );
                assert(r@ =~= every_resource(units@.take(i + 1), data, heights));
            },
            None => {},
        }
        i += 1;
    }
    assert(units@.take(n as int) =~= units@);
    r
}

/// Whether two resources belong together: they lie no further apart than
/// `RESOURCE_SPREAD` and their ground differs by no more than
/// `HEIGHT_DIFFERENCE` in height.
pub open spec fn adjacent(a: Resource, b: Resource) -> bool {
    let dh = if a.height >= b.height {
        a.height - b.height
    } else {
        b.height - a.height
    };
    dist2(a.position, b.position) <= RESOURCE_SPREAD * RESOURCE_SPREAD && dh <= HEIGHT_DIFFERENCE
}

/// The places below `m` of the resources that belong together with the one
/// at place `i`, in rising order.
pub open spec fn near_ones(rs: Seq<Resource>, i: int, m: int) -> Seq<usize>
    decreases m,
{
    if m <= 0 {
        Seq::empty()
    } else if m - 1 != i && adjacent(rs[i], rs[m - 1]) {
        near_ones(rs, i, m - 1).push((m - 1) as usize)
    } else {
        near_ones(rs, i, m - 1)
    }
}

/// For each resource the places of the resources that belong together with it.
pub open spec fn resource_graph(rs: Seq<Resource>) -> Seq<Seq<usize>> {
    Seq::new(rs.len(), |i: int| near_ones(rs, i, rs.len() as int))
}

/// Whether the list names the place `j`.
pub open spec fn listed(s: Seq<usize>, j: int) -> bool {
    exists|k: int| 0 <= k < s.len() && #[trigger] s[k] == j
}

proof fn lemma_near_ones(rs: Seq<Resource>, i: int, m: int)
    requires
        0 <= i < rs.len(),
        0 <= m <= rs.len(),
        rs.len() <= usize::MAX,
    ensures
        forall|k: int|
            0 <= k < near_ones(rs, i, m).len() ==> (#[trigger] near_ones(rs, i, m)[k]) < m,
        forall|j: int|
            0 <= j < m ==> (#[trigger] listed(near_ones(rs, i, m), j) <==> (j != i && adjacent(
                rs[i],
                rs[j],
            ))),
    decreases m,
{
    if m > 0 {
        lemma_near_ones(rs, i, m - 1);
        let before = near_ones(rs, i, m - 1);
        let now = near_ones(rs, i, m);
        assert forall|j: int| 0 <= j < m implies (#[trigger] listed(now, j) <==> (j != i
            && adjacent(rs[i], rs[j]))) by {
            if listed(now, j) {
                let k = choose|k: int| 0 <= k < now.len() && #[trigger] now[k] == j;
                if k < before.len() {
                    assert(before[k] == j);
                    assert(listed(before, j));
                }
            }
            if j != i && adjacent(rs[i], rs[j]) {
                if j < m - 1 {
                    assert(listed(before, j));
                    let k = choose|k: int| 0 <= k < before.len() && #[trigger] before[k] == j;
                    assert(now[k] == j);
                } else {
                    assert(now == before.push((m - 1) as usize));
                    assert(now[now.len() - 1] == j);
                }
            }
        }
    }
}

/// The graph of the resources names only resources, being a neighbour goes
/// both ways in it, and no resource is its own neighbour.
pub proof fn lemma_resource_graph(rs: Seq<Resource>)
    requires
        rs.len() <= usize::MAX,
    ensures
        valid_graph(resource_graph(rs)),
        symmetric(resource_graph(rs)),
        forall|a: int, b: int|
            0 <= a < rs.len() && 0 <= b < rs.len() ==> (#[trigger] edge(resource_graph(rs), a, b) <==> a
                != b && adjacent(rs[a], rs[b])),
{
    let g = resource_graph(rs);
    let n = rs.len() as int;
    assert forall|a: int, j: int| 0 <= a < g.len() && 0 <= j < g[a].len() implies (
    #[trigger] g[a][j]) < g.len() by {
        lemma_near_ones(rs, a, n);
    }
    assert forall|a: int, b: int| 0 <= a < n && 0 <= b < n implies (#[trigger] edge(g, a, b) <==> a
        != b && adjacent(rs[a], rs[b])) by {
        lemma_near_ones(rs, a, n);
        assert(g[a] == near_ones(rs, a, n));
        assert(edge(g, a, b) == listed(near_ones(rs, a, n), b));
    }
    assert forall|a: int, b: int| #[trigger] edge(g, a, b) implies edge(g, b, a) by {
        let j = choose|j: int| 0 <= j < g[a].len() && #[trigger] g[a][j] == b;
        assert(g[a][j] < g.len());
        assert(edge(g, a, b) <==> a != b && adjacent(rs[a], rs[b]));
        assert(edge(g, b, a) <==> b != a && adjacent(rs[b], rs[a]));
        crate::geometry::lemma_dist2_symmetric(rs[a].position, rs[b].position);
    }
}

/// Checks if two resources belong together.
pub fn is_adjacent(a: &Resource, b: &Resource) -> (r: bool)
    ensures
        r == adjacent(*a, *b),
{
    let dh: u8 = if a.height >= b.height {
        a.height - b.height
    } else {
        b.height - a.height
    };
    a.position.is_closer(RESOURCE_SPREAD, b.position) && dh <= HEIGHT_DIFFERENCE
}

/// For each resource the places of the resources that belong together with
/// it; see [`resource_graph`].
pub fn resource_neighbors(rs: &Vec<Resource>) -> (g: Vec<Vec<usize>>)
    ensures
        graph_of(g@) == resource_graph(rs@),
{
    let n = rs.len();
    let mut g: Vec<Vec<usize>> = Vec::new();
    let mut i: usize = 0;
    while i < n
        invariant
            i <= n,
            n == rs.len(),
            g.len() == i,
            forall|a: int| 0 <= a < i ==> (#[trigger] g[a])@ == near_ones(rs@, a, n as int),
        decreases n - i,
    {
        let mut row: Vec<usize> = Vec::new();
        let mut j: usize = 0;
        while j < n
            invariant
                j <= n,
                i < n,
                n == rs.len(),
                row@ == near_ones(rs@, i as int, j as int),
            decreases n - j,
        {
            if j != i && is_adjacent(&rs[i], &rs[j]) {
                row.push(j);
            }
            j += 1;
        }
        g.push(row);
        i += 1;
    }
    assert(graph_of(g@) =~= resource_graph(rs@));
    g
}

/// The resources at the places that a cluster names.
pub open spec fn members(rs: Seq<Resource>, cluster: Seq<usize>) -> Seq<Resource> {
    cluster.map_values(|i: usize| rs[i as int])
}

/// The clusters that hold more than one resource, in their order: a single
/// resource makes no base.
pub open spec fn base_clusters(clusters: Seq<Seq<usize>>) -> Seq<Seq<usize>> {
    clusters.filter(|c: Seq<usize>| c.len() > 1)
}

/// Whether `found` holds the base of each cluster of more than one resource,
/// in the order of the clusters.
pub open spec fn sites_of(
    found: Seq<Expansion>,
    clusters: Seq<Seq<usize>>,
    rs: Seq<Resource>,
    placement: &Grid<bool>,
    start: StartSite,
    enemy_start: StartSite,
    townhall: Option<u64>,
) -> bool {
    let big = base_clusters(clusters);
    &&& found.len() == big.len()
    &&& forall|k: int|
        0 <= k < found.len() ==> (#[trigger] found[k]).wf() && is_site_of(
            found[k]@,
            members(rs, big[k]),
            placement,
            start,
            enemy_start,
            townhall,
        )
}

/// The bases of the map: the resources are clustered, and each cluster of
/// more than one resource makes a base. Without a place for one of the bases
/// the map cannot be played, and the result is the error.
pub fn find_expansions(
    rs: &Vec<Resource>,
    placement: &Grid<bool>,
    start: StartSite,
    enemy_start: StartSite,
    townhall: Option<u64>,
) -> (r: Result<Vec<Expansion>, ExpansionError>)
    ensures
        match r {
            Ok(found) => exists|clusters: Seq<Seq<usize>>, noise: Seq<usize>|
                clustering(resource_graph(rs@), 1, clusters, noise) && sites_of(
                    found@,
                    clusters,
                    rs@,
                    placement,
                    start,
                    enemy_start,
                    townhall,
                ),
            Err(e) => exists|clusters: Seq<Seq<usize>>, noise: Seq<usize>, k: int|
                clustering(resource_graph(rs@), 1, clusters, noise) && 0 <= k < clusters.len()
                    && clusters[k].len() > 1 && e == ExpansionError::NoPlacement(
                    cluster_center(members(rs@, clusters[k])),
                ) && has_no_site(members(rs@, clusters[k]), placement, start, enemy_start),
        },
{
    let g = resource_neighbors(rs);
    proof {
        assert(rs@.len() == rs.len());
        lemma_resource_graph(rs@);
    }
    let (clusters, noise) = dbscan(&g, 1);
    let ghost cl = graph_of(clusters@);
    let mut found: Vec<Expansion> = Vec::new();
    let mut k: usize = 0;
    assert(cl.take(0) =~= Seq::<Seq<usize>>::empty());
    while k < clusters.len()
        invariant
            k <= clusters.len(),
            cl == graph_of(clusters@),
            clustering(resource_graph(rs@), 1, cl, noise@),
            sites_of(found@, cl.take(k as int), rs@, placement, start, enemy_start, townhall),
        decreases clusters.len() - k,
    {
        let ghost seen = cl.take(k as int);
        let ghost before = found@;
        proof {
            reveal(Seq::filter);
            assert(cl.take(k + 1).drop_last() =~= seen);
            assert(cl.take(k + 1).last() == cl[k as int]);
            assert(cl[k as int] == clusters[k as int]@);
        }
        if clusters[k].len() > 1 {
            let mut group: Vec<Resource> = Vec::new();
            let mut j: usize = 0;
            while j < clusters[k].len()
                invariant
                    j <= clusters[k as int].len(),
                    k < clusters.len(),
                    cl == graph_of(clusters@),
                    clustering(resource_graph(rs@), 1, cl, noise@),
                    group@ == members(rs@, clusters[k as int]@.take(j as int)),
                decreases clusters[k as int].len() - j,
            {
                let at = clusters[k][j];
                proof {
                    assert(cl[k as int][j as int] < resource_graph(rs@).len());
                    assert(members(rs@, clusters[k as int]@.take(j + 1)) =~= members(
                        rs@,
                        clusters[k as int]@.take(j as int),
                    ).push(rs@[at as int]));
                }
                group.push(rs[at]);
                j += 1;
            }
            assert(clusters[k as int]@.take(clusters[k as int].len() as int) =~= clusters[k as int]@);
            match site_for(&group, placement, start, enemy_start, townhall) {
                Ok(e) => {
                    found.push(e);
                    proof {
                        let big = base_clusters(cl.take(k + 1));
                        let big0 = base_clusters(seen);
                        assert(big == big0.push(cl[k as int]));
                        assert forall|x: int| 0 <= x < found@.len() implies (#[trigger] found@[x]).wf()
                            && is_site_of(
                            found@[x]@,
                            members(rs@, big[x]),
                            placement,
                            start,
                            enemy_start,
                            townhall,
                        ) by {
                            if x < before.len() {
                                assert(found@[x] == before[x]);
                                assert(big[x] == big0[x]);
                            }
                        }
                    }
                },
                Err(e) => {
                    assert(e is NoPlacement);
                    return Err(e);
                },
            }
        } else {
            proof {
                assert(base_clusters(cl.take(k + 1)) == base_clusters(seen));
            }
        }
        k += 1;
    }
    assert(cl.take(clusters.len() as int) =~= cl);
    Ok(found)
}

/// What stands for a path that does not exist; in 4096ths.
pub const UNREACHABLE: i64 = 4096000000;

/// Length of a path, or `UNREACHABLE` where there is none.
pub open spec fn path_length(path: Option<i32>) -> int {
    match path {
        Some(d) => d as int,
        None => UNREACHABLE as int,
    }
}

/// The path at place `k`; none where the list is shorter.
pub open spec fn path_at(paths: Seq<Option<i32>>, k: int) -> Option<i32> {
    if 0 <= k < paths.len() {
        paths[k]
    } else {
        None
    }
}

/// What a base costs to hold: ten times the path from the bot's start times
/// 1.8, less the path from the opponent's start. A base that is near for the
/// bot and far for the opponent costs least.
pub open spec fn scores(n: nat, my_paths: Seq<Option<i32>>, enemy_paths: Seq<Option<i32>>) -> Seq<
    i128,
> {
    Seq::new(
        n,
        |k: int|
            (18 * path_length(path_at(my_paths, k)) - 10 * path_length(path_at(enemy_paths, k)))
                as i128,
    )
}

/// Puts the bases in the order of what they cost to hold, the cheapest
/// first; bases that cost the same keep their order. `my_paths` and
/// `enemy_paths` give for each base the length of the path from the bot's
/// and from the opponent's start; a base without a path, or for which the
/// list has no entry, counts as out of reach.
pub fn order_expansions(
    expansions: Vec<Expansion>,
    my_paths: &Vec<Option<i32>>,
    enemy_paths: &Vec<Option<i32>>,
) -> (r: Vec<Expansion>)
    ensures
        r@.len() == expansions@.len(),
        forall|k: int|
            0 <= k < r.len() ==> #[trigger] r[k] == expansions[rising_order(
                scores(expansions@.len(), my_paths@, enemy_paths@),
                expansions@.len(),
            )[k] as int],
{
    let n = expansions.len();
    let mut keys: Vec<i128> = Vec::new();
    let mut k: usize = 0;
    while k < n
        invariant
            k <= n,
            n == expansions.len(),
            keys@ == scores(k as nat, my_paths@, enemy_paths@),
        decreases n - k,
    {
        let mine: i128 = if k < my_paths.len() {
            match my_paths[k] {
                Some(d) => d as i128,
                None => UNREACHABLE as i128,
            }
        } else {
            UNREACHABLE as i128
        };
        let theirs: i128 = if k < enemy_paths.len() {
            match enemy_paths[k] {
                Some(d) => d as i128,
                None => UNREACHABLE as i128,
            }
        } else {
            UNREACHABLE as i128
        };
        keys.push(18 * mine - 10 * theirs);
        assert(keys@ =~= scores((k + 1) as nat, my_paths@, enemy_paths@));
        k += 1;
    }
    let order = sorted_order(&keys);
    proof {
        lemma_rising_order(keys@, keys@.len());
        assert forall|j: int| 0 <= j < n implies (#[trigger] order[j]) < n by {
            assert(order@.contains(order@[j]));
        }
    }
    let mut slots: Vec<Option<Expansion>> = Vec::new();
    let mut rest = expansions;
    let ghost given = rest@;
    // Move the bases into slots from which each can be taken by its place.
    let mut back: Vec<Expansion> = Vec::new();
    while rest.len() > 0
        invariant
            rest.len() + back.len() == n,
            n == given.len(),
            rest@ == given.take(rest.len() as int),
            forall|j: int| 0 <= j < back.len() ==> #[trigger] back[j] == given[n - 1 - j],
        decreases rest.len(),
    {
        let e = rest.pop().unwrap();
        back.push(e);
    }
    while back.len() > 0
        invariant
            slots.len() + back.len() == n,
            n == given.len(),
            forall|j: int| 0 <= j < back.len() ==> #[trigger] back[j] == given[n - 1 - j],
            forall|j: int| 0 <= j < slots.len() ==> #[trigger] slots[j] == Some(given[j]),
        decreases back.len(),
    {
        let e = back.pop().unwrap();
        slots.push(Some(e));
    }
    let mut r: Vec<Expansion> = Vec::new();
    let mut k: usize = 0;
    while k < n
        invariant
            k <= n,
            n == order.len(),
            n == slots.len(),
            n == given.len(),
            r.len() == k,
            order@.no_duplicates(),
            forall|j: int| 0 <= j < n ==> (#[trigger] order[j]) < n,
            forall|j: int| 0 <= j < k ==> #[trigger] r[j] == given[order[j] as int],
            forall|j: int|
                0 <= j < n ==> #[trigger] slots[j] == (if exists|x: int|
                    0 <= x < k && order[x] == j {
                    None::<Expansion>
                } else {
                    Some(given[j])
                }),
        decreases n - k,
    {
        let at = order[k];
        let ghost before = slots@;
        proof {
            if exists|x: int| 0 <= x < k && order[x] == at {
                let x = choose|x: int| 0 <= x < k && order[x] == at;
                assert(order@[x] == order@[k as int]);
            }
            assert(slots[at as int] == Some(given[at as int]));
        }
        let mut taken: Option<Expansion> = None;
        std::mem::swap(&mut taken, &mut slots[at]);
        match taken {
            Some(e) => {
                r.push(e);
            },
            None => {},
        }
        proof {
            assert forall|j: int| 0 <= j < n implies #[trigger] slots[j] == (if exists|x: int|
                0 <= x < k + 1 && order[x] == j {
                None::<Expansion>
            } else {
                Some(given[j])
            }) by {
                if j == at {
                    assert(order[k as int] == j);
                } else {
                    assert(slots[j] == before[j]);
                    if exists|x: int| 0 <= x < k + 1 && order[x] == j {
                        let x = choose|x: int| 0 <= x < k + 1 && order[x] == j;
                        assert(x < k);
                    }
                }
            }
        }
        k += 1;
    }
    r
}

/// Whether a unit is a main building that holds the place where it stands:
/// a landed main building of the bot that has begun, or one of the opponent.
pub open spec fn holds_base(u: UnitView, data: &GameData) -> bool {
    u.is_structure(data) && u.type_id.spec_is_landed_townhall() && ((u.alliance == Alliance::Own
        && u.display_type != DisplayType::Placeholder) || u.alliance == Alliance::Enemy)
}

/// Who holds the place `loc` among the first `n` units: the last main
/// building that stands there. Where none does, the opponent holds its
/// start location as long as that was never seen, and nobody any other
/// place.
pub open spec fn occupant(
    units: Seq<UnitView>,
    n: int,
    data: &GameData,
    loc: Point2,
    enemy_start: Point2,
    enemy_start_hidden: bool,
) -> (Alliance, Option<u64>)
    decreases n,
{
    if n <= 0 {
        if enemy_start_hidden && loc == enemy_start {
            (Alliance::Enemy, None)
        } else {
            (Alliance::Neutral, None)
        }
    } else if holds_base(units[n - 1], data) && units[n - 1].position == loc {
        (units[n - 1].alliance, Some(units[n - 1].tag))
    } else {
        occupant(units, n - 1, data, loc, enemy_start, enemy_start_hidden)
    }
}

/// Who holds the base at place `k` of the list: the occupant of its place,
/// unless an earlier base of the list stands at the same place, which then
/// is the one that is held.
pub open spec fn holder(
    locs: Seq<Point2>,
    k: int,
    units: Seq<UnitView>,
    data: &GameData,
    enemy_start: Point2,
    enemy_start_hidden: bool,
) -> (Alliance, Option<u64>) {
    if exists|j: int| 0 <= j < k && locs[j] == locs[k] {
        (Alliance::Neutral, None)
    } else {
        occupant(units, units.len() as int, data, locs[k], enemy_start, enemy_start_hidden)
    }
}

/// Checks who holds the place `loc`; see [`occupant`].
pub fn find_occupant(
    all: &Units,
    data: &GameData,
    loc: Point2,
    enemy_start: Point2,
    enemy_start_hidden: bool,
) -> (r: (Alliance, Option<u64>))
    ensures
        r == occupant(all@, all@.len() as int, data, loc, enemy_start, enemy_start_hidden),
{
    let mut i: usize = all.len();
    while i > 0
        invariant
            i <= all@.len(),
            occupant(all@, all@.len() as int, data, loc, enemy_start, enemy_start_hidden)
                == occupant(all@, i as int, data, loc, enemy_start, enemy_start_hidden),
        decreases i,
    {
        match all.get_index(i - 1) {
            Some(u) => {
                let holds = u.is_structure(data) && u.type_id.is_landed_townhall() && ((
                u.alliance == Alliance::Own && !u.is_placeholder()) || u.alliance
                    == Alliance::Enemy);
                if holds && u.position == loc {
                    return (u.alliance, Some(u.tag));
                }
            },
            None => {},
        }
        i -= 1;
    }
    if enemy_start_hidden && loc == enemy_start {
        (Alliance::Enemy, None)
    } else {
        (Alliance::Neutral, None)
    }
}

/// The places of the bases.
pub open spec fn locations(expansions: Seq<Expansion>) -> Seq<Point2> {
    expansions.map_values(|e: Expansion| e.loc)
}

/// Brings up to date who holds each base, from the units that an
/// observation shows. The resources and the place of a base stay as they are.
pub fn refresh_occupancy(
    expansions: &mut Vec<Expansion>,
    all: &Units,
    data: &GameData,
    enemy_start: Point2,
    enemy_start_hidden: bool,
)
    ensures
        final(expansions)@.len() == old(expansions)@.len(),
        forall|k: int|
            0 <= k < old(expansions)@.len() ==> {
                let e = #[trigger] final(expansions)@[k];
                let o = old(expansions)@[k];
                let h = holder(
                    locations(old(expansions)@),
                    k,
                    all@,
                    data,
                    enemy_start,
                    enemy_start_hidden,
                );
                &&& e.loc == o.loc
                &&& e.center == o.center
                &&& e.minerals == o.minerals
                &&& e.geysers == o.geysers
                &&& e.alliance == h.0
                &&& e.base == h.1
            },
{
    let n = expansions.len();
    let ghost given = expansions@;
    let mut k: usize = 0;
    while k < n
        invariant
            k <= n,
            n == expansions.len(),
            n == given.len(),
            forall|j: int|
                0 <= j < n ==> {
                    let e = #[trigger] expansions@[j];
                    &&& e.loc == given[j].loc
                    &&& e.center == given[j].center
                    &&& e.minerals == given[j].minerals
                    &&& e.geysers == given[j].geysers
                },
            forall|j: int| k <= j < n ==> #[trigger] expansions@[j] == given[j],
            forall|j: int|
                0 <= j < k ==> {
                    let e = #[trigger] expansions@[j];
                    let h = holder(locations(given), j, all@, data, enemy_start, enemy_start_hidden);
                    e.alliance == h.0 && e.base == h.1
                },
        decreases n - k,
    {
        let loc = expansions[k].loc;
        let mut taken = false;
        let mut j: usize = 0;
        while j < k
            invariant
                j <= k,
                k < n,
                n == expansions.len(),
                n == given.len(),
                loc == given[k as int].loc,
                forall|x: int| 0 <= x < n ==> (#[trigger] expansions@[x]).loc == given[x].loc,
                taken == exists|x: int| 0 <= x < j && locations(given)[x] == loc,
            decreases k - j,
        {
            if expansions[j].loc == loc {
                assert(locations(given)[j as int] == loc);
                taken = true;
            }
            j += 1;
        }
        let (alliance, base) = if taken {
            (Alliance::Neutral, None)
        } else {
            find_occupant(all, data, loc, enemy_start, enemy_start_hidden)
        };
        let ghost before = expansions@;
        let mut e = Expansion {
            loc,
            center: loc,
            minerals: OrderedTags::new(),
            geysers: TagSet::new(),
            alliance,
            base,
        };
        std::mem::swap(&mut e, &mut expansions[k]);
        let Expansion { loc, center, minerals, geysers, alliance: _, base: _ } = e;
        let mut e = Expansion { loc, center, minerals, geysers, alliance, base };
        std::mem::swap(&mut e, &mut expansions[k]);
        proof {
            assert(locations(given)[k as int] == given[k as int].loc);
            assert forall|x: int| 0 <= x < n && x != k implies expansions@[x] == before[x] by {}
        }
        k += 1;
    }
}

/// Centre of a start location and the resources no further than
/// `START_RESOURCES` from it: the mean of their positions, rounded down to a
/// 4096th.
pub open spec fn start_center_of(rs: Seq<Resource>, start: Point2) -> Point2 {
    let close = rs.filter(
        |r: Resource| dist2(r.position, start) <= START_RESOURCES * START_RESOURCES,
    ).push(Resource { tag: 0, position: start, geyser: false, height: 0 });
    Point2 { x: centroid(close).0 as i32, y: centroid(close).1 as i32 }
}

/// Centre of a start location and the resources around it.
pub fn start_center(rs: &Vec<Resource>, start: Point2) -> (c: Point2)
    ensures
        c == start_center_of(rs@, start),
{
    let mut close: Vec<Resource> = Vec::new();
    let mut i: usize = 0;
    while i < rs.len()
        invariant
            i <= rs.len(),
            close@ == rs@.take(i as int).filter(
                |r: Resource| dist2(r.position, start) <= START_RESOURCES * START_RESOURCES,
            ),
        decreases rs.len() - i,
    {
        proof {
            reveal(Seq::filter);
            assert(rs@.take(i + 1).drop_last() =~= rs@.take(i as int));
        }
        if rs[i].position.is_closer(START_RESOURCES, start) {
            close.push(rs[i]);
        }
        i += 1;
    }
    assert(rs@.take(rs.len() as int) =~= rs@);
    close.push(Resource { tag: 0, position: start, geyser: false, height: 0 });
    let m = mean_of(&close);
    Point2 { x: m.0, y: m.1 }
}

/// The mineral fields of a base stand in the order of their distance to the
/// main building: the distances never fall along the list, and they rise
/// from each field to the next where no two fields are equally far. Each
/// field stands in the list once.
pub proof fn lemma_minerals_ascending(s: Seq<Resource>, loc: Point2)
    requires
        s.len() <= usize::MAX,
        forall|i: int, j: int|
            0 <= i < j < minerals_of(s).len() ==> (#[trigger] minerals_of(s)[i]).tag != (
            #[trigger] minerals_of(s)[j]).tag,
    ensures
        ({
            let m = minerals_of(s);
            let order = rising_order(distances(m, loc), m.len());
            &&& minerals_by_distance(s, loc) == order.map_values(|k: usize| m[k as int].tag)
            &&& order.len() == m.len()
            &&& order.no_duplicates()
            &&& forall|i: int, j: int|
                0 <= i < j < m.len() ==> dist2(m[#[trigger] order[i] as int].position, loc) <= dist2(
                    m[#[trigger] order[j] as int].position,
                    loc,
                )
            &&& (forall|a: int, b: int|
                0 <= a < b < m.len() ==> dist2(m[a].position, loc) != dist2(m[b].position, loc))
                ==> forall|i: int, j: int|
                0 <= i < j < m.len() ==> dist2(m[#[trigger] order[i] as int].position, loc) < dist2(
                    m[#[trigger] order[j] as int].position,
                    loc,
                )
        }),
{
    let m = minerals_of(s);
    let keys = distances(m, loc);
    let order = rising_order(keys, m.len());
    assert(m.len() <= s.len()) by {
        s.lemma_filter_len(|r: Resource| !r.geyser);
    }
    lemma_rising_order(keys, m.len());
    let tags = order.map_values(|k: usize| m[k as int].tag);
    assert forall|i: int| 0 <= i < order.len() implies (#[trigger] order[i]) < m.len() by {
        assert(order.contains(order[i]));
    }
    assert(tags.no_duplicates()) by {
        assert forall|i: int, j: int| 0 <= i < tags.len() && 0 <= j < tags.len() && i
            != j implies tags[i] != tags[j] by {
            let a = order[i] as int;
            let b = order[j] as int;
            assert(order[i] != order[j]);
            if a < b {
                assert(m[a].tag != m[b].tag);
            } else {
                assert(m[b].tag != m[a].tag);
            }
        }
    }
    lemma_each_once(tags);
    assert forall|i: int, j: int| 0 <= i < j < m.len() implies dist2(
        m[#[trigger] order[i] as int].position,
        loc,
    ) <= dist2(m[#[trigger] order[j] as int].position, loc) by {
        assert(keys[order[i] as int] <= keys[order[j] as int]);
        lemma_dist2_fits(m[order[i] as int].position, loc);
        lemma_dist2_fits(m[order[j] as int].position, loc);
    }
    if forall|a: int, b: int|
        0 <= a < b < m.len() ==> dist2(m[a].position, loc) != dist2(m[b].position, loc) {
        assert forall|a: int, b: int| 0 <= a < b < keys.len() implies keys[a] != keys[b] by {
            lemma_dist2_fits(m[a].position, loc);
            lemma_dist2_fits(m[b].position, loc);
            assert(dist2(m[a].position, loc) != dist2(m[b].position, loc));
        }
        crate::order::lemma_strictly_rising(keys);
        assert forall|i: int, j: int| 0 <= i < j < m.len() implies dist2(
            m[#[trigger] order[i] as int].position,
            loc,
        ) < dist2(m[#[trigger] order[j] as int].position, loc) by {
            assert(keys[order[i] as int] < keys[order[j] as int]);
            lemma_dist2_fits(m[order[i] as int].position, loc);
            lemma_dist2_fits(m[order[j] as int].position, loc);
        }
    }
}

/// The square of a distance on the map fits the type of the keys.
pub proof fn lemma_dist2_fits(a: Point2, b: Point2)
    ensures
        0 <= dist2(a, b) <= 0x8000_0000_0000_0000_0000,
        (dist2(a, b) as i128) as int == dist2(a, b),
{
    let dx = a.x - b.x;
    let dy = a.y - b.y;
    assert(0 <= dx * dx <= 0x1_0000_0000 * 0x1_0000_0000) by (nonlinear_arith)
        requires
            -0x1_0000_0000 <= dx <= 0x1_0000_0000,
    ;
    assert(0 <= dy * dy <= 0x1_0000_0000 * 0x1_0000_0000) by (nonlinear_arith)
        requires
            -0x1_0000_0000 <= dy <= 0x1_0000_0000,
    ;
}

/// Tags that stand in a list once each are all kept.
pub proof fn lemma_each_once(tags: Seq<u64>)
    requires
        tags.no_duplicates(),
    ensures
        each_once(tags) == tags,
    decreases tags.len(),
{
    if tags.len() > 0 {
        let head = tags.drop_last();
        lemma_each_once(head);
        assert(!head.contains(tags.last())) by {
            if head.contains(tags.last()) {
                let i = choose|i: int| 0 <= i < head.len() && head[i] == tags.last();
                assert(tags[i] == tags[tags.len() - 1]);
            }
        }
        assert(each_once(tags) =~= tags);
    } else {
        assert(each_once(tags) =~= tags);
    }
}

} // verus!
