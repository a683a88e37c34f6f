//! What to assume of an enemy unit that is no longer seen.
//!
//! The bot remembers every enemy unit it has seen. When a remembered unit is
//! missing from an observation, it may have died, walked off, or hidden: by
//! burrowing, by cloaking, or in the fog. What the bot sees around the place
//! where the unit stood decides which of these it assumes. It rather takes a
//! unit for hidden that is gone than for gone one that hides.
use vstd::prelude::*;
use crate::game_data::GameData;
use crate::game_state::{Alliance, Effect};
use crate::geometry::{cell_of, dist2, Grid, Point2, SCALE, Visibility};
use crate::ids::{EffectId, UnitTypeId};
use crate::unit::{cell_visible, DisplayType, Unit, UnitView};
use crate::units::{
    distinct_tags, entry_of, extended, has_tag, lemma_extended, lemma_one_place, place_of, tag_at,
    PlayerUnits, PlayerView, Units,
};

verus! {

/// How far from a structure a drone can stand and still have gone to work
/// on it, beyond both radii; in 4096ths.
pub const SITE_GAP: i32 = 4096;

/// How far from a transport a unit can stand and still have been picked up,
/// beyond both radii; in 4096ths.
pub const CARRIER_GAP: i32 = 6144;

/// How many cells around a unit's cell must be seen to tell that the unit is
/// not just out of sight.
pub const SURROUND: usize = 2;

/// What the bot assumes of a remembered enemy unit.
#[derive(Debug, Clone, Copy, PartialEq, Eq, Structural)]
pub enum Verdict {
    /// The unit is seen in this observation.
    Seen,
    /// The unit is seen burrowed, and nothing of the bot will keep detecting
    /// it: it counts as cloaked.
    Cloaked,
    /// The unit is gone from a place that is seen: it is taken to have
    /// burrowed, and to have the type given.
    Burrowed(UnitTypeId),
    /// The place where the unit stood is not seen: the unit may still be there.
    Hidden,
    /// The unit was hidden before and nothing tells otherwise.
    Unchanged,
    /// The unit is taken for dead or gone.
    Evicted,
}

/// Everything around the remembered units that an observation shows.
pub struct Scene {
    /// The enemy units that the observation shows.
    pub current: Seq<UnitView>,
    /// The units among which the bot's detectors are.
    pub watchers: Seq<UnitView>,
    /// The effects on the map.
    pub effects: Seq<Effect>,
    /// Structures that a drone may have gone to work on.
    pub sites: Seq<UnitView>,
    /// Units among which transports are that may have picked a unit up.
    pub carriers: Seq<UnitView>,
    /// Whether the opponent plays the race that burrows.
    pub zerg: bool,
}

/// Square of a length.
pub open spec fn sq(d: int) -> int {
    d * d
}

/// Whether the detector `d` reaches the unit `u`: the distance between them
/// is at most the detector's range and both radii, and `gap`.
pub open spec fn watches(d: UnitView, u: UnitView, gap: int) -> bool {
    d.is_detector() && dist2(u.position, d.position) <= sq(
        u.radius + gap + d.radius + d.detect_range,
    )
}

/// Whether the effect is a scan of `side` that reaches the unit `u`: the
/// distance to one of its positions is at most its radius, the unit's
/// radius, and `gap`.
pub open spec fn scans(e: Effect, side: Alliance, u: UnitView, gap: int) -> bool {
    e.id == EffectId::ScannerSweep && e.alliance == side && exists|k: int|
        0 <= k < e.positions@.len() && dist2(u.position, #[trigger] e.positions@[k]) <= sq(
            u.radius + gap + e.radius,
        )
}

/// Whether a detector among `watchers` or a scan of `side` reaches the unit.
pub open spec fn covered(
    u: UnitView,
    watchers: Seq<UnitView>,
    effects: Seq<Effect>,
    side: Alliance,
    gap: int,
) -> bool {
    (exists|i: int| 0 <= i < watchers.len() && watches(#[trigger] watchers[i], u, gap)) || (exists|
        j: int,
    | 0 <= j < effects.len() && scans(#[trigger] effects[j], side, u, gap))
}

/// Whether two units are no further apart than both radii and `gap`.
pub open spec fn near(a: UnitView, b: UnitView, gap: int) -> bool {
    dist2(a.position, b.position) <= sq(a.radius + b.radius + gap)
}

/// Whether `s` is a structure that the drone `u` may have gone to work on: one
/// that has hardly begun, or a finished extractor, next to the drone.
pub open spec fn is_site_for(s: UnitView, u: UnitView) -> bool {
    (s.build_progress * 10 < SCALE || (s.type_id == UnitTypeId::Extractor && s.is_ready())) && near(
        u,
        s,
        SITE_GAP as int,
    )
}

/// Whether `t` is a transport that may have picked the unit `u` up: a
/// finished transport next to the unit.
pub open spec fn is_carrier_for(t: UnitView, u: UnitView) -> bool {
    t.type_id.spec_is_transport() && t.is_ready() && near(u, t, CARRIER_GAP as int)
}

/// Types of unit whose vanishing next to a transport is told apart.
pub open spec fn rides(t: UnitTypeId) -> bool {
    t.spec_is_changeling() || t == UnitTypeId::Broodling || t == UnitTypeId::Larva || t
        == UnitTypeId::Egg
}

/// Whether the surroundings speak for a unit that vanished having gone
/// under ground where it stood: a drone next to a site, or a unit next to a
/// transport.
pub open spec fn circumstances(u: UnitView, sites: Seq<UnitView>, carriers: Seq<UnitView>) -> bool {
    (u.type_id == UnitTypeId::Drone && exists|i: int|
        0 <= i < sites.len() && is_site_for(#[trigger] sites[i], u)) || (rides(u.type_id)
        && exists|i: int| 0 <= i < carriers.len() && is_carrier_for(#[trigger] carriers[i], u))
}

/// Whether every cell up to `SURROUND` cells away from the cell of
/// `position` lies on the map and is seen now.
pub open spec fn surround_visible(visibility: &Grid<Visibility>, position: Point2) -> bool {
    forall|dx: int, dy: int|
        -(SURROUND as int) <= dx <= SURROUND && -(SURROUND as int) <= dy <= SURROUND
            ==> #[trigger] visibility.at(
            cell_of(position.x as int) + dx,
            cell_of(position.y as int) + dy,
        ) == Some(Visibility::Visible)
}

/// The type that a unit of type `t` has when burrowed, where the rules know
/// one: that of the first entry for `t`.
pub open spec fn burrowed_form(forms: Seq<(UnitTypeId, UnitTypeId)>, t: UnitTypeId) -> Option<
    UnitTypeId,
>
    decreases forms.len(),
{
    if forms.len() == 0 {
        None
    } else if forms[0].0 == t {
        Some(forms[0].1)
    } else {
        burrowed_form(forms.skip(1), t)
    }
}

/// What the bot assumes of the remembered unit `u`.
///
/// A unit that the observation shows is seen; where it is burrowed and
/// detected while no detector or scan of the bot reaches it, it counts as
/// cloaked. A structure on the ground that is missing is gone. Any other
/// missing unit is hidden where its place is not seen. Where its place is
/// seen and the unit was seen before, it is taken to have burrowed if the
/// opponent is zerg, the unit walks, can burrow, the surroundings speak for
/// it, nothing detects the place and the cells around are seen; else it is
/// gone. Where its place is seen and the unit was hidden before, it stays as
/// it is if it was burrowed and nothing detects the place; else it is gone.
pub open spec fn verdict(
    u: UnitView,
    scene: Scene,
    visibility: &Grid<Visibility>,
    data: &GameData,
) -> Verdict {
    let unseen = !covered(u, scene.watchers, scene.effects, Alliance::Own, 0);
    if has_tag(scene.current, u.tag) {
        if u.is_burrowed && u.is_revealed && unseen {
            Verdict::Cloaked
        } else {
            Verdict::Seen
        }
    } else if u.is_flying || !u.is_structure(data) {
        if cell_visible(visibility, u.position) {
            if u.display_type == DisplayType::Visible {
                if scene.zerg && !u.is_flying && circumstances(u, scene.sites, scene.carriers)
                    && unseen && surround_visible(visibility, u.position) && burrowed_form(
                    data.burrowed_ids@,
                    u.type_id,
                ).is_some() {
                    Verdict::Burrowed(burrowed_form(data.burrowed_ids@, u.type_id).unwrap())
                } else {
                    Verdict::Evicted
                }
            } else if u.is_burrowed && unseen {
                Verdict::Unchanged
            } else {
                Verdict::Evicted
            }
        } else {
            Verdict::Hidden
        }
    } else {
        Verdict::Evicted
    }
}

/// What is remembered of the unit once the verdict is applied. A unit that
/// counts as cloaked or burrowed is hidden, cloaked and not detected; the
/// burrowed one also has its burrowed type. A hidden unit is hidden.
pub open spec fn settled(u: UnitView, v: Verdict) -> UnitView {
    match v {
        Verdict::Cloaked => UnitView {
            display_type: DisplayType::Hidden,
            is_cloaked: true,
            is_revealed: false,
            ..u
        },
        Verdict::Burrowed(form) => UnitView {
            display_type: DisplayType::Hidden,
            type_id: form,
            is_burrowed: true,
            is_cloaked: true,
            is_revealed: false,
            ..u
        },
        Verdict::Hidden => UnitView { display_type: DisplayType::Hidden, ..u },
        _ => u,
    }
}

/// The verdict on the unit with the tag `tag`, which is that on the unit that
/// `all` remembers under the tag; a unit that `all` does not remember stays
/// as it is.
pub open spec fn verdict_on(
    tag: u64,
    all: Seq<UnitView>,
    scene: Scene,
    visibility: &Grid<Visibility>,
    data: &GameData,
) -> Verdict {
    if has_tag(all, tag) {
        verdict(entry_of(all, tag), scene, visibility, data)
    } else {
        Verdict::Unchanged
    }
}

/// The units of `sub` after the verdicts: evicted units are left out, the
/// others are settled and keep their order.
pub open spec fn resettled(
    sub: Seq<UnitView>,
    all: Seq<UnitView>,
    scene: Scene,
    visibility: &Grid<Visibility>,
    data: &GameData,
) -> Seq<UnitView>
    decreases sub.len(),
{
    if sub.len() == 0 {
        Seq::empty()
    } else {
        let before = resettled(sub.drop_last(), all, scene, visibility, data);
        let v = verdict_on(sub.last().tag, all, scene, visibility, data);
        if v == Verdict::Evicted {
            before
        } else {
            before.push(settled(sub.last(), v))
        }
    }
}

/// Checks if a detector among `watchers` or a scan of `side` reaches the unit.
pub fn is_covered(u: &Unit, watchers: &Units, effects: &Vec<Effect>, side: Alliance, gap: i32) -> (r:
    bool)
    ensures
        r == covered(u@, watchers@, effects@, side, gap as int),
{
    let n = watchers.len();
    let mut i: usize = 0;
    while i < n
        invariant
            i <= n,
            n == watchers@.len(),
            forall|k: int| 0 <= k < i ==> !watches(#[trigger] watchers@[k], u@, gap as int),
        decreases n - i,
    {
        match watchers.get_index(i) {
            Some(d) => {
                if d.is_detector() {
                    let reach: i64 = u.radius as i64 + gap as i64 + d.radius as i64
                        + d.detect_range as i64;
                    if u.position.is_closer(reach, d.position) {
                        assert(watches(watchers@[i as int], u@, gap as int));
                        return true;
                    }
                }
            },
            None => {},
        }
        i += 1;
    }
    let mut j: usize = 0;
    while j < effects.len()
        invariant
            j <= effects.len(),
            n == watchers@.len(),
            forall|k: int| 0 <= k < n ==> !watches(#[trigger] watchers@[k], u@, gap as int),
            forall|k: int| 0 <= k < j ==> !scans(#[trigger] effects@[k], side, u@, gap as int),
        decreases effects.len() - j,
    {
        let e = &effects[j];
        if e.id == EffectId::ScannerSweep && e.alliance == side {
            let reach: i64 = u.radius as i64 + gap as i64 + e.radius as i64;
            let mut k: usize = 0;
            while k < e.positions.len()
                invariant
                    k <= e.positions.len(),
                    j < effects.len(),
                    *e == effects@[j as int],
                    e.id == EffectId::ScannerSweep && e.alliance == side,
                    reach == u.radius + gap + e.radius,
                    forall|m: int|
                        0 <= m < k ==> !(dist2(u@.position, #[trigger] e.positions@[m]) <= sq(
                            reach as int,
                        )),
                decreases e.positions.len() - k,
            {
                if u.position.is_closer(reach, e.positions[k]) {
                    assert(dist2(u@.position, e.positions@[k as int]) <= sq(reach as int));
                    assert(scans(effects@[j as int], side, u@, gap as int));
                    return true;
                }
                k += 1;
            }
        }
        j += 1;
    }
    false
}

/// Checks if the surroundings speak for the unit having gone under ground.
pub fn has_circumstances(u: &Unit, sites: &Units, carriers: &Units) -> (r: bool)
    ensures
        r == circumstances(u@, sites@, carriers@),
{
    if u.type_id == UnitTypeId::Drone {
        let n = sites.len();
        let mut i: usize = 0;
        while i < n
            invariant
                i <= n,
                n == sites@.len(),
                u@.type_id == UnitTypeId::Drone,
                forall|k: int| 0 <= k < i ==> !is_site_for(#[trigger] sites@[k], u@),
            decreases n - i,
        {
            match sites.get_index(i) {
                Some(s) => {
                    let begun = (s.build_progress as i64) * 10 < SCALE as i64;
                    if begun || (s.type_id == UnitTypeId::Extractor && s.is_ready()) {
                        let reach: i64 = u.radius as i64 + s.radius as i64 + SITE_GAP as i64;
                        if u.position.is_closer(reach, s.position) {
                            assert(is_site_for(sites@[i as int], u@));
                            return true;
                        }
                    }
                },
                None => {},
            }
            i += 1;
        }
        assert(!rides(u@.type_id));
        false
    } else if u.type_id.is_changeling() || u.type_id == UnitTypeId::Broodling || u.type_id
        == UnitTypeId::Larva || u.type_id == UnitTypeId::Egg {
        let n = carriers.len();
        let mut i: usize = 0;
        while i < n
            invariant
                i <= n,
                n == carriers@.len(),
                rides(u@.type_id),
                forall|k: int| 0 <= k < i ==> !is_carrier_for(#[trigger] carriers@[k], u@),
            decreases n - i,
        {
            match carriers.get_index(i) {
                Some(t) => {
                    if t.type_id.is_transport() && t.is_ready() {
                        let reach: i64 = u.radius as i64 + t.radius as i64 + CARRIER_GAP as i64;
                        if u.position.is_closer(reach, t.position) {
                            assert(is_carrier_for(carriers@[i as int], u@));
                            return true;
                        }
                    }
                },
                None => {},
            }
            i += 1;
        }
        false
    } else {
        false
    }
}

/// Checks if every cell up to `SURROUND` cells away from the cell of
/// `position` lies on the map and is seen now.
pub fn is_surround_visible(visibility: &Grid<Visibility>, position: Point2) -> (r: bool)
    ensures
        r == surround_visible(visibility, position),
{
    let (cx, cy) = position.cell();
    if cx < SURROUND || cy < SURROUND {
        proof {
            let dx: int = if cx < SURROUND {
                -(SURROUND as int)
            } else {
                0
            };
            let dy: int = if cx < SURROUND {
                0
            } else {
                -(SURROUND as int)
            };
            assert(visibility.at(cell_of(position.x as int) + dx, cell_of(position.y as int) + dy)
                != Some(Visibility::Visible)) by {
                visibility.lemma_outside(cx + dx, cy + dy);
            }
        }
        return false;
    }
    let x0: usize = cx - SURROUND;
    let y0: usize = cy - SURROUND;
    let side: usize = 2 * SURROUND + 1;
    let mut ix: usize = 0;
    while ix < side
        invariant
            ix <= side,
            side == 2 * SURROUND + 1,
            x0 == cx - SURROUND,
            y0 == cy - SURROUND,
            cx == cell_of(position.x as int),
            cy == cell_of(position.y as int),
            cx <= i32::MAX,
            cy <= i32::MAX,
            forall|dx: int, dy: int|
                -(SURROUND as int) <= dx < ix - SURROUND && -(SURROUND as int) <= dy <= SURROUND
                    ==> #[trigger] visibility.at(cx + dx, cy + dy) == Some(Visibility::Visible),
        decreases side - ix,
    {
        let mut iy: usize = 0;
        while iy < side
            invariant
                iy <= side,
                ix < side,
                side == 2 * SURROUND + 1,
                x0 == cx - SURROUND,
                y0 == cy - SURROUND,
                cx == cell_of(position.x as int),
                cy == cell_of(position.y as int),
                cx <= i32::MAX,
                cy <= i32::MAX,
                forall|dx: int, dy: int|
                    -(SURROUND as int) <= dx < ix - SURROUND && -(SURROUND as int) <= dy
                        <= SURROUND ==> #[trigger] visibility.at(cx + dx, cy + dy) == Some(
                        Visibility::Visible,
                    ),
                forall|dy: int|
                    -(SURROUND as int) <= dy < iy - SURROUND ==> #[trigger] visibility.at(
                        cx + (ix - SURROUND),
                        cy + dy,
                    ) == Some(Visibility::Visible),
            decreases side - iy,
        {
            let seen = match visibility.get((x0 + ix, y0 + iy)) {
                Some(v) => v.is_visible(),
                None => false,
            };
            if !seen {
                assert(visibility.at(cx + (ix - SURROUND), cy + (iy - SURROUND)) != Some(
                    Visibility::Visible,
                ));
                return false;
            }
            iy += 1;
        }
        ix += 1;
    }
    true
}

/// Looks up the type that a unit of type `t` has when burrowed.
pub fn find_burrowed_form(forms: &Vec<(UnitTypeId, UnitTypeId)>, t: UnitTypeId) -> (r: Option<
    UnitTypeId,
>)
    ensures
        r == burrowed_form(forms@, t),
{
    let mut i: usize = 0;
    assert(forms@.skip(0) =~= forms@);
    while i < forms.len()
        invariant
            i <= forms.len(),
            burrowed_form(forms@, t) == burrowed_form(forms@.skip(i as int), t),
        decreases forms.len() - i,
    {
        assert(forms@.skip(i as int)[0] == forms@[i as int]);
        assert(forms@.skip(i as int).skip(1) =~= forms@.skip(i + 1));
        if forms[i].0 == t {
            return Some(forms[i].1);
        }
        i += 1;
    }
    None
}

/// What the bot assumes of the remembered unit `u`; see [`verdict`].
pub fn judge(
    u: &Unit,
    current: &Units,
    watchers: &Units,
    effects: &Vec<Effect>,
    sites: &Units,
    carriers: &Units,
    zerg: bool,
    visibility: &Grid<Visibility>,
    data: &GameData,
) -> (v: Verdict)
    requires
        current.wf(),
    ensures
        v == verdict(
            u@,
            (Scene {
                current: current@,
                watchers: watchers@,
                effects: effects@,
                sites: sites@,
                carriers: carriers@,
                zerg,
            }),
            visibility,
            data,
        ),
{
    if current.contains_tag(u.tag) {
        if u.is_burrowed && u.is_revealed && !is_covered(u, watchers, effects, Alliance::Own, 0) {
            Verdict::Cloaked
        } else {
            Verdict::Seen
        }
    } else if u.is_flying || !u.is_structure(data) {
        let seen = match visibility.get(u.position.cell()) {
            Some(v) => v.is_visible(),
            None => false,
        };
        if seen {
            if u.is_visible() {
                if zerg && !u.is_flying && has_circumstances(u, sites, carriers) && !is_covered(
                    u,
                    watchers,
                    effects,
                    Alliance::Own,
                    0,
                ) && is_surround_visible(visibility, u.position) {
                    match find_burrowed_form(&data.burrowed_ids, u.type_id) {
                        Some(form) => Verdict::Burrowed(form),
                        None => Verdict::Evicted,
                    }
                } else {
                    Verdict::Evicted
                }
            } else if u.is_burrowed && !is_covered(u, watchers, effects, Alliance::Own, 0) {
                Verdict::Unchanged
            } else {
                Verdict::Evicted
            }
        } else {
            Verdict::Hidden
        }
    } else {
        Verdict::Evicted
    }
}

/// The remembered unit after the verdict; see [`settled`].
pub fn settle(u: &Unit, v: Verdict) -> (r: Unit)
    ensures
        r@ == settled(u@, v),
{
    let mut r = u.clone();
    match v {
        Verdict::Cloaked => {
            r.display_type = DisplayType::Hidden;
            r.is_cloaked = true;
            r.is_revealed = false;
        },
        Verdict::Burrowed(form) => {
            r.display_type = DisplayType::Hidden;
            r.type_id = form;
            r.is_burrowed = true;
            r.is_cloaked = true;
            r.is_revealed = false;
        },
        Verdict::Hidden => {
            r.display_type = DisplayType::Hidden;
        },
        _ => {},
    }
    r
}

/// What is left of the units of `sub` after the verdicts, where `all` holds
/// every remembered unit; see [`resettled`].
pub fn resettle(
    sub: &Units,
    all: &Units,
    current: &Units,
    watchers: &Units,
    effects: &Vec<Effect>,
    sites: &Units,
    carriers: &Units,
    zerg: bool,
    visibility: &Grid<Visibility>,
    data: &GameData,
) -> (r: Units)
    requires
        sub.wf(),
        all.wf(),
        current.wf(),
    ensures
        r.wf(),
        r@ == resettled(
            sub@,
            all@,
            (Scene {
                current: current@,
                watchers: watchers@,
                effects: effects@,
                sites: sites@,
                carriers: carriers@,
                zerg,
            }),
            visibility,
            data,
        ),
{
    let ghost scene = Scene {
        current: current@,
        watchers: watchers@,
        effects: effects@,
        sites: sites@,
        carriers: carriers@,
        zerg,
    };
    let mut r = Units::new();
    let n = sub.len();
    let mut i: usize = 0;
    proof {
        sub.lemma_wf();
    }
    while i < n
        invariant
            i <= n,
            n == sub@.len(),
            sub.wf(),
            all.wf(),
            current.wf(),
            distinct_tags(sub@),
            r.wf(),
            scene == (Scene {
                current: current@,
                watchers: watchers@,
                effects: effects@,
                sites: sites@,
                carriers: carriers@,
                zerg,
            }),
            r@ == resettled(sub@.take(i as int), all@, scene, visibility, data),
        decreases n - i,
    {
        let ghost seen = sub@.take(i as int);
        match sub.get_index(i) {
            Some(w) => {
                assert(sub@.take(i + 1).drop_last() =~= seen);
                let v = match all.get(w.tag) {
                    Some(u) => judge(
                        u,
                        current,
                        watchers,
                        effects,
                        sites,
                        carriers,
                        zerg,
                        visibility,
                        data,
                    ),
                    None => Verdict::Unchanged,
                };
                assert(v == verdict_on(w@.tag, all@, scene, visibility, data));
                if v != Verdict::Evicted {
                    proof {
                        lemma_resettled(seen, all@, scene, visibility, data);
                        if has_tag(r@, w.tag) {
                            assert(has_tag(seen, w.tag));
                            let k = place_of(seen, w.tag);
                            assert(sub@[k].tag != sub@[i as int].tag);
                        }
                    }
                    r.push(settle(w, v));
                }
            },
            None => {},
        }
        i += 1;
    }
    assert(sub@.take(n as int) =~= sub@);
    r
}

/// After the verdicts a unit is remembered exactly if it was remembered and
/// is not evicted, and it is remembered as it is settled.
pub proof fn lemma_resettled(
    sub: Seq<UnitView>,
    all: Seq<UnitView>,
    scene: Scene,
    visibility: &Grid<Visibility>,
    data: &GameData,
)
    requires
        distinct_tags(sub),
    ensures
        distinct_tags(resettled(sub, all, scene, visibility, data)),
        forall|t: u64|
            #[trigger] has_tag(resettled(sub, all, scene, visibility, data), t) <==> has_tag(sub, t)
                && verdict_on(t, all, scene, visibility, data) != Verdict::Evicted,
        forall|t: u64|
            has_tag(resettled(sub, all, scene, visibility, data), t) ==> #[trigger] entry_of(
                resettled(sub, all, scene, visibility, data),
                t,
            ) == settled(entry_of(sub, t), verdict_on(t, all, scene, visibility, data)),
    decreases sub.len(),
{
    let r = resettled(sub, all, scene, visibility, data);
    if sub.len() > 0 {
        let head = sub.drop_last();
        let w = sub.last();
        let n = sub.len() - 1;
        assert(distinct_tags(head)) by {
            assert forall|i: int, j: int| 0 <= i < j < head.len() implies (#[trigger] head[i]).tag
                != (#[trigger] head[j]).tag by {
                assert(sub[i].tag != sub[j].tag);
            }
        }
        lemma_resettled(head, all, scene, visibility, data);
        let r0 = resettled(head, all, scene, visibility, data);
        let v = verdict_on(w.tag, all, scene, visibility, data);
        assert(tag_at(sub, w.tag, n));
        lemma_one_place(sub, w.tag, n);
        assert(!has_tag(head, w.tag)) by {
            if has_tag(head, w.tag) {
                let i = place_of(head, w.tag);
                assert(sub[i].tag != sub[n].tag);
            }
        }
        assert forall|t: u64| has_tag(sub, t) <==> has_tag(head, t) || t == w.tag by {
            if has_tag(sub, t) {
                let i = place_of(sub, t);
                if i < n {
                    assert(tag_at(head, t, i));
                }
            }
            if has_tag(head, t) {
                let i = place_of(head, t);
                assert(tag_at(sub, t, i));
            }
        }
        assert forall|t: u64| has_tag(head, t) implies entry_of(head, t) == entry_of(sub, t) by {
            let i = place_of(head, t);
            assert(tag_at(sub, t, i));
            lemma_one_place(sub, t, i);
        }
        if v == Verdict::Evicted {
            assert(r == r0);
        } else {
            let s = settled(w, v);
            assert(s.tag == w.tag);
            assert(r == r0.push(s));
            let m = r0.len() as int;
            assert(!has_tag(r0, w.tag));
            assert forall|i: int, j: int| 0 <= i < j < r.len() implies (#[trigger] r[i]).tag != (
            #[trigger] r[j]).tag by {
                if j < m {
                    assert(r0[i].tag != r0[j].tag);
                } else {
                    assert(!tag_at(r0, w.tag, i));
                }
            }
            assert(tag_at(r, w.tag, m));
            lemma_one_place(r, w.tag, m);
            assert forall|t: u64| #[trigger] has_tag(r, t) <==> has_tag(sub, t) && verdict_on(
                t,
                all,
                scene,
                visibility,
                data,
            ) != Verdict::Evicted by {
                if has_tag(r, t) {
                    let i = place_of(r, t);
                    if i < m {
                        assert(tag_at(r0, t, i));
                    }
                }
                if has_tag(r0, t) {
                    let i = place_of(r0, t);
                    assert(tag_at(r, t, i));
                }
            }
            assert forall|t: u64| has_tag(r, t) implies #[trigger] entry_of(r, t) == settled(
                entry_of(sub, t),
                verdict_on(t, all, scene, visibility, data),
            ) by {
                if t != w.tag {
                    let p = place_of(r, t);
                    assert(tag_at(r, t, p));
                    assert(p < m);
                    assert(tag_at(r0, t, p));
                    lemma_one_place(r0, t, p);
                    assert(has_tag(head, t));
                    assert(entry_of(head, t) == entry_of(sub, t));
                    assert(entry_of(r0, t) == settled(
                        entry_of(head, t),
                        verdict_on(t, all, scene, visibility, data),
                    ));
                } else {
                    assert(entry_of(r, t) == r[m]);
                    assert(entry_of(sub, t) == w);
                }
            }
        }
    } else {
        assert forall|t: u64| !has_tag(r, t) by {
            if has_tag(r, t) {
                let i = place_of(r, t);
            }
        }
    }
}

/// What the bot remembers of the opponent after an observation, where
/// `before` is what it remembered before and `enemy` what the observation
/// shows.
///
/// Every group takes in the units that the observation shows; of the groups
/// of structures, main buildings, gas buildings and larvae nothing older is
/// kept, unless the opponent is terran, whose structures and main buildings
/// stay where they are. Then every unit is settled by its verdict.
pub open spec fn remembered(
    before: PlayerView,
    enemy: PlayerView,
    terran: bool,
    scene: Scene,
    visibility: &Grid<Visibility>,
    data: &GameData,
) -> PlayerView {
    let all = extended(before.all, enemy.all);
    PlayerView {
        all: resettled(all, all, scene, visibility, data),
        units: resettled(extended(before.units, enemy.units), all, scene, visibility, data),
        workers: resettled(extended(before.workers, enemy.workers), all, scene, visibility, data),
        structures: resettled(
            if terran {
                extended(before.structures, enemy.structures)
            } else {
                enemy.structures
            },
            all,
            scene,
            visibility,
            data,
        ),
        townhalls: resettled(
            if terran {
                extended(before.townhalls, enemy.townhalls)
            } else {
                enemy.townhalls
            },
            all,
            scene,
            visibility,
            data,
        ),
        gas_buildings: resettled(enemy.gas_buildings, all, scene, visibility, data),
        larvas: resettled(enemy.larvas, all, scene, visibility, data),
        placeholders: before.placeholders,
    }
}

/// What an observation shows around the remembered units: the opponent's
/// units of the observation, among which the sites and the transports are,
/// the bot's units, among which its detectors are, and the effects.
pub open spec fn scene_of(
    enemy: PlayerView,
    watchers: Seq<UnitView>,
    effects: Seq<Effect>,
    zerg: bool,
) -> Scene {
    Scene {
        current: enemy.all,
        watchers,
        effects,
        sites: enemy.structures,
        carriers: enemy.units,
        zerg,
    }
}

/// Brings what the bot remembers of the opponent up to date with an
/// observation; see [`remembered`].
pub fn update_cache(
    cached: &mut PlayerUnits,
    enemy: &PlayerUnits,
    watchers: &Units,
    effects: &Vec<Effect>,
    terran: bool,
    zerg: bool,
    visibility: &Grid<Visibility>,
    data: &GameData,
)
    requires
        old(cached).wf(),
        enemy.wf(),
    ensures
        final(cached).wf(),
        final(cached)@ == remembered(
            old(cached)@,
            enemy@,
            terran,
            scene_of(enemy@, watchers@, effects@, zerg),
            visibility,
            data,
        ),
{
    cached.all.extend(&enemy.all);
    cached.units.extend(&enemy.units);
    cached.workers.extend(&enemy.workers);
    if terran {
        cached.structures.extend(&enemy.structures);
        cached.townhalls.extend(&enemy.townhalls);
    } else {
        cached.structures = enemy.structures.duplicate();
        cached.townhalls = enemy.townhalls.duplicate();
    }
    let all = cached.all.duplicate();
    let current = &enemy.all;
    let sites = &enemy.structures;
    let carriers = &enemy.units;
    cached.all = resettle(
        &all,
        &all,
        current,
        watchers,
        effects,
        sites,
        carriers,
        zerg,
        visibility,
        data,
    );
    cached.units = resettle(
        &cached.units,
        &all,
        current,
        watchers,
        effects,
        sites,
        carriers,
        zerg,
        visibility,
        data,
    );
    cached.workers = resettle(
        &cached.workers,
        &all,
        current,
        watchers,
        effects,
        sites,
        carriers,
        zerg,
        visibility,
        data,
    );
    cached.structures = resettle(
        &cached.structures,
        &all,
        current,
        watchers,
        effects,
        sites,
        carriers,
        zerg,
        visibility,
        data,
    );
    cached.townhalls = resettle(
        &cached.townhalls,
        &all,
        current,
        watchers,
        effects,
        sites,
        carriers,
        zerg,
        visibility,
        data,
    );
    cached.gas_buildings = resettle(
        &enemy.gas_buildings,
        &all,
        current,
        watchers,
        effects,
        sites,
        carriers,
        zerg,
        visibility,
        data,
    );
    cached.larvas = resettle(
        &enemy.larvas,
        &all,
        current,
        watchers,
        effects,
        sites,
        carriers,
        zerg,
        visibility,
        data,
    );
}

/// The bot never takes a hiding unit for one that can be attacked.
///
/// Let `before` be the units remembered before an observation, `current`
/// those that the observation shows, and `after` what is remembered then.
/// A unit that is then remembered as cloaked or burrowed by assumption cannot
/// be attacked. And a remembered unit that could not be attacked before and
/// that the observation does not show cannot be attacked after: it stays
/// hidden until it is seen again, or it is dropped when a detector or a scan
/// reaches its place and finds nothing.
pub proof fn lemma_conservative(
    before: Seq<UnitView>,
    scene: Scene,
    visibility: &Grid<Visibility>,
    data: &GameData,
    t: u64,
)
    requires
        distinct_tags(before),
        distinct_tags(scene.current),
        has_tag(
            resettled(
                extended(before, scene.current),
                extended(before, scene.current),
                scene,
                visibility,
                data,
            ),
            t,
        ),
    ensures
        ({
            let all = extended(before, scene.current);
            let after = resettled(all, all, scene, visibility, data);
            let v = verdict_on(t, all, scene, visibility, data);
            &&& (v == Verdict::Cloaked || v is Burrowed) ==> !entry_of(after, t).can_be_attacked()
            &&& !has_tag(scene.current, t) ==> has_tag(before, t) && (!entry_of(
                before,
                t,
            ).can_be_attacked() ==> !entry_of(after, t).can_be_attacked() && (covered(
                entry_of(before, t),
                scene.watchers,
                scene.effects,
                Alliance::Own,
                0,
            ) ==> !cell_visible(visibility, entry_of(before, t).position)))
        }),
{
    let all = extended(before, scene.current);
    lemma_extended(before, scene.current);
    lemma_resettled(all, all, scene, visibility, data);
}

} // verus!
