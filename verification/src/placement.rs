//! Looking for a place to build.
//!
//! Whether a building can stand at a place is for the game to say. The
//! search asks the game about some places, takes the answers, and either
//! has found a place or asks about the next ring of places around the
//! wanted position, until the rings reach too far.
use vstd::prelude::*;
use rand::seq::SliceRandom;
use crate::bot::PlacementOptions;
use crate::geometry::{dist2, Point2, SCALE};
use crate::ids::AbilityId;

verus! {

/// Where, seen from a building, the supply depot stands that takes as much
/// room as an add-on: two and a half cells to the right.
pub const ADDON_OFFSET_X: i32 = 10240;

/// Where, seen from a building, the supply depot stands that takes as much
/// room as an add-on: half a cell down.
pub const ADDON_OFFSET_Y: i32 = -2048;

/// Question to the game: can the ability place its building at the position?
#[derive(Debug, Clone, Copy, PartialEq, Eq, Structural)]
pub struct PlacementQuery {
    /// The ability that places the building.
    pub ability: AbilityId,
    /// Where the building is to stand.
    pub pos: Point2,
}

/// How far the search has come.
#[derive(Debug, Clone, Copy, PartialEq, Eq, Structural)]
pub enum SearchStage {
    /// The wanted position itself was asked about.
    First,
    /// A ring of places was asked about.
    Ring,
    /// The places of a ring where the building fits were asked about for
    /// the add-on.
    Addon,
    /// The search is over.
    Done,
}

/// What the search does next.
#[derive(Debug)]
pub enum SearchStep {
    /// It asks the game; the answers are to be handed to
    /// [`PlacementSearch::advance`] in the order of the questions.
    Ask(Vec<PlacementQuery>),
    /// It found the place.
    Found(Point2),
    /// It found none.
    NotFound,
}

/// Search for a place to build.
pub struct PlacementSearch {
    /// The ability that places the building.
    pub ability: AbilityId,
    /// Where the building is wanted.
    pub near: Point2,
    /// How to search.
    pub options: PlacementOptions,
    /// How far the search has come.
    pub stage: SearchStage,
    /// How many cells the ring that was last asked about lies from `near`.
    pub distance: i64,
    /// The places that were last asked about.
    pub candidates: Vec<Point2>,
}

/// The point `dx` and `dy` cells from `near`; `None` where it lies outside
/// the range of the coordinates.
pub open spec fn cell_offset(near: Point2, dx: int, dy: int) -> Option<Point2> {
    let x = near.x + dx * SCALE;
    let y = near.y + dy * SCALE;
    if i32::MIN <= x <= i32::MAX && i32::MIN <= y <= i32::MAX {
        Some(Point2 { x: x as i32, y: y as i32 })
    } else {
        None
    }
}

/// The sequence with the point added, where there is one.
pub open spec fn with_point(s: Seq<Point2>, p: Option<Point2>) -> Seq<Point2> {
    match p {
        Some(q) => s.push(q),
        None => s,
    }
}

/// The places of the ring `distance` cells around `near` that lie on the
/// first `k` steps along its sides: for each step the places on the lower,
/// the upper, the left and the right side.
pub open spec fn ring_places(near: Point2, distance: int, step: int, k: int) -> Seq<Point2>
    decreases k,
{
    if k <= 0 {
        Seq::empty()
    } else {
        let o = -distance + (k - 1) * step;
        let s0 = ring_places(near, distance, step, k - 1);
        let s1 = with_point(s0, cell_offset(near, o, -distance));
        let s2 = with_point(s1, cell_offset(near, o, distance));
        let s3 = with_point(s2, cell_offset(near, -distance, o));
        with_point(s3, cell_offset(near, distance, o))
    }
}

/// How many steps of `step` cells lie along a side of the ring `distance`
/// cells around a point.
pub open spec fn ring_steps(distance: int, step: int) -> int {
    2 * distance / step + 1
}

/// The places of the ring `distance` cells around `near`.
pub open spec fn ring(near: Point2, distance: int, step: int) -> Seq<Point2> {
    ring_places(near, distance, step, ring_steps(distance, step))
}

/// The answer at place `i`; no where the answers are fewer.
pub open spec fn answer(results: Seq<bool>, i: int) -> bool {
    0 <= i < results.len() && results[i]
}

/// The first `n` of the places for which the game said yes, in their order.
pub open spec fn accepted(places: Seq<Point2>, results: Seq<bool>, n: int) -> Seq<Point2>
    decreases n,
{
    if n <= 0 {
        Seq::empty()
    } else if answer(results, n - 1) {
        accepted(places, results, n - 1).push(places[n - 1])
    } else {
        accepted(places, results, n - 1)
    }
}

/// The questions whether the ability can place its building at each of the
/// places.
pub open spec fn questions(ability: AbilityId, places: Seq<Point2>) -> Seq<PlacementQuery> {
    places.map_values(|p: Point2| PlacementQuery { ability, pos: p })
}

/// Where the supply depot stands that takes the room of the add-on of a
/// building at `p`; at `p` itself where that lies outside the range of the
/// coordinates.
pub open spec fn addon_place(p: Point2) -> Point2 {
    let x = p.x + ADDON_OFFSET_X;
    let y = p.y + ADDON_OFFSET_Y;
    if i32::MIN <= x <= i32::MAX && i32::MIN <= y <= i32::MAX {
        Point2 { x: x as i32, y: y as i32 }
    } else {
        p
    }
}

/// The questions whether a supply depot fits where the add-on of a building
/// at each of the places would stand.
pub open spec fn addon_questions(places: Seq<Point2>) -> Seq<PlacementQuery> {
    places.map_values(
        |p: Point2| PlacementQuery { ability: AbilityId::TerranBuildSupplyDepot, pos: addon_place(p) },
    )
}

/// Whether the place at `k` is the nearest to `near`, and the first of those
/// that are as near.
pub open spec fn is_nearest_place(places: Seq<Point2>, k: int, near: Point2) -> bool {
    &&& 0 <= k < places.len()
    &&& forall|j: int|
        0 <= j < places.len() ==> dist2(places[k], near) < dist2(#[trigger] places[j], near) || (
        dist2(places[k], near) == dist2(places[j], near) && k <= j)
}

/// Whether the search goes on to a ring after the one `distance` cells out:
/// the rings are a whole number of cells apart, and the next one lies
/// within reach.
pub open spec fn has_next_ring(options: PlacementOptions, distance: int) -> bool {
    options.step >= 1 && distance + options.step < options.max_distance
}

/// `rand::seq::SliceRandom::choose` with the generator that
/// `rand::thread_rng` gives: one of the places, whichever; `None` where
/// there are none. Nothing here is proved, and nothing is said of which
/// place comes back.
#[verifier::external_body]
fn choose_place(places: &Vec<Point2>) -> (r: Option<Point2>)
    ensures
        match r {
            Some(p) => places@.contains(p),
            None => places@.len() == 0,
        },
{
    places.choose(&mut rand::thread_rng()).copied()
}

/// The place to build among those where the building fits, given the place
/// that chance picked among them: with `random` that one, else the nearest
/// to `near`. `None` where the building fits nowhere.
pub fn settle_place(places: &Vec<Point2>, near: Point2, random: bool, picked: Option<Point2>) -> (r:
    Option<Point2>)
    requires
        match picked {
            Some(p) => places@.contains(p),
            None => places@.len() == 0,
        },
    ensures
        match r {
            Some(p) => if random {
                picked == Some(p)
            } else {
                exists|k: int| is_nearest_place(places@, k, near) && places@[k] == p
            },
            None => places@.len() == 0,
        },
{
    if random {
        return picked;
    }
    let mut best: Option<(usize, i128)> = None;
    let mut i: usize = 0;
    while i < places.len()
        invariant
            i <= places.len(),
            match best {
                Some((k, d)) => k < i && d == dist2(places@[k as int], near) && forall|j: int|
                    0 <= j < i ==> d < dist2(#[trigger] places@[j], near) || (d == dist2(
                        places@[j],
                        near,
                    ) && k <= j),
                None => i == 0,
            },
        decreases places.len() - i,
    {
        let d = places[i].distance_squared(near);
        let better = match best {
            Some((_, least)) => d < least,
            None => true,
        };
        if better {
            best = Some((i, d));
        }
        i += 1;
    }
    match best {
        Some((k, _)) => {
            assert(is_nearest_place(places@, k as int, near));
            Some(places[k])
        },
        None => None,
    }
}

/// The point `dx` and `dy` cells from `near`; see [`cell_offset`].
pub fn offset_cells(near: Point2, dx: i64, dy: i64) -> (r: Option<Point2>)
    ensures
        r == cell_offset(near, dx as int, dy as int),
{
    let x: i128 = near.x as i128 + (dx as i128) * (SCALE as i128);
    let y: i128 = near.y as i128 + (dy as i128) * (SCALE as i128);
    if x >= i32::MIN as i128 && x <= i32::MAX as i128 && y >= i32::MIN as i128 && y
        <= i32::MAX as i128 {
        Some(Point2 { x: x as i32, y: y as i32 })
    } else {
        None
    }
}

/// The places of the ring `distance` cells around `near`; see [`ring`].
pub fn ring_of(near: Point2, distance: i64, step: i64) -> (r: Vec<Point2>)
    requires
        step >= 1,
        0 <= distance < 0x4000_0000_0000_0000,
    ensures
        r@ == ring(near, distance as int, step as int),
{
    let steps: i64 = 2 * distance / step + 1;
    let mut r: Vec<Point2> = Vec::new();
    let mut k: i64 = 0;
    while k < steps
        invariant
            0 <= k <= steps,
            step >= 1,
            0 <= distance < 0x4000_0000_0000_0000,
            steps == ring_steps(distance as int, step as int),
            r@ == ring_places(near, distance as int, step as int, k as int),
        decreases steps - k,
    {
        proof {
            assert(0 <= k * step <= 2 * distance) by (nonlinear_arith)
                requires
                    0 <= k < steps,
                    steps == 2 * distance / (step as int) + 1,
                    step >= 1,
                    distance >= 0,
            ;
        }
        let o: i64 = -distance + k * step;
        let ghost s0 = r@;
        match offset_cells(near, o, -distance) {
            Some(p) => {
                r.push(p);
            },
            None => {},
        }
        match offset_cells(near, o, distance) {
            Some(p) => {
                r.push(p);
            },
            None => {},
        }
        match offset_cells(near, -distance, o) {
            Some(p) => {
                r.push(p);
            },
            None => {},
        }
        match offset_cells(near, distance, o) {
            Some(p) => {
                r.push(p);
            },
            None => {},
        }
        k += 1;
    }
    r
}

/// The places for which the game said yes; see [`accepted`].
pub fn keep_accepted(places: &Vec<Point2>, results: &Vec<bool>) -> (r: Vec<Point2>)
    ensures
        r@ == accepted(places@, results@, places@.len() as int),
{
    let mut r: Vec<Point2> = Vec::new();
    let mut i: usize = 0;
    while i < places.len()
        invariant
            i <= places.len(),
            r@ == accepted(places@, results@, i as int),
        decreases places.len() - i,
    {
        if i < results.len() && results[i] {
            r.push(places[i]);
        }
        i += 1;
    }
    r
}

/// The questions about each of the places; see [`questions`].
pub fn ask_about(ability: AbilityId, places: &Vec<Point2>) -> (r: Vec<PlacementQuery>)
    ensures
        r@ == questions(ability, places@),
{
    let mut r: Vec<PlacementQuery> = Vec::new();
    let mut i: usize = 0;
    while i < places.len()
        invariant
            i <= places.len(),
            r@ == questions(ability, places@.take(i as int)),
        decreases places.len() - i,
    {
        r.push(PlacementQuery { ability, pos: places[i] });
        assert(questions(ability, places@.take(i + 1)) =~= questions(
            ability,
            places@.take(i as int),
        ).push(PlacementQuery { ability, pos: places@[i as int] }));
        i += 1;
    }
    assert(places@.take(places.len() as int) =~= places@);
    r
}

/// The questions about the add-on at each of the places; see
/// [`addon_questions`].
pub fn ask_about_addons(places: &Vec<Point2>) -> (r: Vec<PlacementQuery>)
    ensures
        r@ == addon_questions(places@),
{
    let mut r: Vec<PlacementQuery> = Vec::new();
    let mut i: usize = 0;
    while i < places.len()
        invariant
            i <= places.len(),
            r@ == addon_questions(places@.take(i as int)),
        decreases places.len() - i,
    {
        let pos = match places[i].offset(ADDON_OFFSET_X, ADDON_OFFSET_Y) {
            Some(p) => p,
            None => places[i],
        };
        r.push(PlacementQuery { ability: AbilityId::TerranBuildSupplyDepot, pos });
        assert(addon_questions(places@.take(i + 1)) =~= addon_questions(
            places@.take(i as int),
        ).push(
            PlacementQuery {
                ability: AbilityId::TerranBuildSupplyDepot,
                pos: addon_place(places@[i as int]),
            },
        ));
        i += 1;
    }
    assert(places@.take(places.len() as int) =~= places@);
    r
}

impl PlacementSearch {
    /// Begins the search for a place near `near` for the building that
    /// `ability` places: asks about `near` itself, and with the option for
    /// an add-on about the place of the add-on too.
    pub fn start(ability: AbilityId, near: Point2, options: PlacementOptions) -> (r: (
        PlacementSearch,
        Vec<PlacementQuery>,
    ))
        ensures
            r.0.ability == ability,
            r.0.near == near,
            r.0.options == options,
            r.0.stage == SearchStage::First,
            r.0.distance == 0,
            r.0.candidates@ == seq![near],
            r.1@ == if options.addon {
                questions(ability, seq![near]) + addon_questions(seq![near])
            } else {
                questions(ability, seq![near])
            },
    {
        let mut candidates: Vec<Point2> = Vec::new();
        candidates.push(near);
        let mut queries = ask_about(ability, &candidates);
        if options.addon {
            let mut more = ask_about_addons(&candidates);
            queries.append(&mut more);
        }
        assert(candidates@ =~= seq![near]);
        (
            PlacementSearch {
                ability,
                near,
                options,
                stage: SearchStage::First,
                distance: 0,
                candidates,
            },
            queries,
        )
    }

    /// Goes on to the ring after the one `distance` cells out: asks about
    /// its places, or finds that no ring is left.
    fn next_ring(&mut self) -> (step: SearchStep)
        requires
            0 <= old(self).distance,
        ensures
            final(self).ability == old(self).ability,
            final(self).near == old(self).near,
            final(self).options == old(self).options,
            0 <= final(self).distance,
            if has_next_ring(old(self).options, old(self).distance as int) && old(self).distance
                + old(self).options.step < 0x4000_0000_0000_0000 {
                &&& final(self).stage == SearchStage::Ring
                &&& final(self).distance == old(self).distance + old(self).options.step
                &&& final(self).candidates@ == ring(
                    old(self).near,
                    final(self).distance as int,
                    old(self).options.step as int,
                )
                &&& step matches SearchStep::Ask(q)
                &&& q@ == questions(old(self).ability, final(self).candidates@)
            } else {
                &&& final(self).stage == SearchStage::Done
                &&& final(self).distance == old(self).distance
                &&& step is NotFound
            },
    {
        let step = self.options.step as i64;
        let max = self.options.max_distance as i64;
        if step >= 1 && self.distance < 0x4000_0000_0000_0000 - step && self.distance + step < max {
            self.distance = self.distance + step;
            self.candidates = ring_of(self.near, self.distance, step);
            self.stage = SearchStage::Ring;
            SearchStep::Ask(ask_about(self.ability, &self.candidates))
        } else {
            self.stage = SearchStage::Done;
            SearchStep::NotFound
        }
    }

    /// Takes the answers of the game to the questions that were last asked,
    /// in their order, and tells what the search does next.
    ///
    /// After the first questions the wanted position is found if the game
    /// said yes to all of them. After the questions about a ring the places
    /// to which it said yes are kept; with the option for an add-on they are
    /// asked about for the add-on. Where places are left, the search has
    /// found one: the nearest to the wanted position, or with the option for
    /// a random place any of them. Else it goes on to the next ring.
    pub fn advance(&mut self, results: &Vec<bool>) -> (step: SearchStep)
        requires
            0 <= old(self).distance,
        ensures
            final(self).ability == old(self).ability,
            final(self).near == old(self).near,
            final(self).options == old(self).options,
            0 <= final(self).distance,
            ({
                let pre = *old(self);
                let post = *final(self);
                let kept = accepted(pre.candidates@, results@, pre.candidates@.len() as int);
                let first_ok = answer(results@, 0) && (!pre.options.addon || answer(results@, 1));
                let found = match pre.stage {
                    SearchStage::First => first_ok,
                    SearchStage::Ring => !pre.options.addon && kept.len() > 0,
                    SearchStage::Addon => kept.len() > 0,
                    SearchStage::Done => false,
                };
                let asks_addon = pre.stage == SearchStage::Ring && pre.options.addon && kept.len()
                    > 0;
                let ring_next = has_next_ring(pre.options, pre.distance as int) && pre.distance
                    + pre.options.step < 0x4000_0000_0000_0000;
                if pre.stage == SearchStage::Done {
                    step is NotFound && post == pre
                } else if found {
                    &&& post.stage == SearchStage::Done
                    &&& step matches SearchStep::Found(p)
                    &&& if pre.stage == SearchStage::First {
                        p == pre.near
                    } else if pre.options.random {
                        kept.contains(p)
                    } else {
                        exists|k: int| is_nearest_place(kept, k, pre.near) && kept[k] == p
                    }
                } else if asks_addon {
                    &&& post.stage == SearchStage::Addon
                    &&& post.distance == pre.distance
                    &&& post.candidates@ == kept
                    &&& step matches SearchStep::Ask(q)
                    &&& q@ == addon_questions(kept)
                } else if ring_next {
                    &&& post.stage == SearchStage::Ring
                    &&& post.distance == pre.distance + pre.options.step
                    &&& post.candidates@ == ring(
                        pre.near,
                        post.distance as int,
                        pre.options.step as int,
                    )
                    &&& step matches SearchStep::Ask(q)
                    &&& q@ == questions(pre.ability, post.candidates@)
                } else {
                    post.stage == SearchStage::Done && step is NotFound
                }
            }),
    {
        match self.stage {
            SearchStage::Done => SearchStep::NotFound,
            SearchStage::First => {
                let ok = results.len() > 0 && results[0] && (!self.options.addon || (results.len()
                    > 1 && results[1]));
                if ok {
                    self.stage = SearchStage::Done;
                    SearchStep::Found(self.near)
                } else {
                    self.next_ring()
                }
            },
            SearchStage::Ring => {
                let kept = keep_accepted(&self.candidates, results);
                if kept.len() == 0 {
                    self.next_ring()
                } else if self.options.addon {
                    let q = ask_about_addons(&kept);
                    self.candidates = kept;
                    self.stage = SearchStage::Addon;
                    SearchStep::Ask(q)
                } else {
                    self.finish(kept)
                }
            },
            SearchStage::Addon => {
                let kept = keep_accepted(&self.candidates, results);
                if kept.len() == 0 {
                    self.next_ring()
                } else {
                    self.finish(kept)
                }
            },
        }
    }

    /// Ends the search with one of the places where the building fits.
    fn finish(&mut self, kept: Vec<Point2>) -> (step: SearchStep)
        requires
            kept@.len() > 0,
        ensures
            *final(self) == (PlacementSearch { stage: SearchStage::Done, ..*old(self) }),
            step matches SearchStep::Found(p) && if old(self).options.random {
                kept@.contains(p)
            } else {
                exists|k: int| is_nearest_place(kept@, k, old(self).near) && kept@[k] == p
            },
    {
        self.stage = SearchStage::Done;
        let picked = if self.options.random {
            choose_place(&kept)
        } else {
            assert(kept@.contains(kept@[0]));
            Some(kept[0])
        };
        match settle_place(&kept, self.near, self.options.random, picked) {
            Some(p) => SearchStep::Found(p),
            None => SearchStep::NotFound,
        }
    }
}

} // verus!
