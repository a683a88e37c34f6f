//! What the bot notes of its units and the opponent's from one observation
//! to the next.
use vstd::prelude::*;
use crate::cache::{covered, is_covered};
use crate::game_data::GameData;
use crate::game_state::{Alliance, Effect};
use crate::ids::{BuffId, EffectId, UnitTypeId};
use crate::tags::{TagMap, TagSet};
use crate::unit::{DisplayType, Unit, UnitView};
use crate::units::{
    distinct_tags, entry_of, has_tag, lemma_extended_distinct, lemma_one_place, place_of, tag_at,
    views_of, Units,
};

verus! {

/// The unit with what is known of hallucinations: a unit of the opponent
/// whose tag was seen on a hallucination is one.
pub open spec fn marked(u: UnitView, saved: Set<u64>) -> UnitView {
    if u.alliance == Alliance::Enemy && saved.contains(u.tag) {
        UnitView { is_hallucination: true, ..u }
    } else {
        u
    }
}

/// The units with what is known of hallucinations.
pub open spec fn all_marked(units: Seq<UnitView>, saved: Set<u64>) -> Seq<UnitView> {
    units.map_values(|u: UnitView| marked(u, saved))
}

/// The units with what is known of hallucinations; see [`marked`].
pub fn mark_hallucinations(all: &Units, saved: &TagSet) -> (r: Units)
    requires
        all.wf(),
    ensures
        r.wf(),
        r@ == all_marked(all@, saved@),
{
    let mut v: Vec<Unit> = Vec::new();
    let n = all.len();
    let mut i: usize = 0;
    while i < n
        invariant
            i <= n,
            n == all@.len(),
            v.len() == i,
            forall|j: int| 0 <= j < i ==> (#[trigger] v[j])@ == marked(all@[j], saved@),
        decreases n - i,
    {
        match all.get_index(i) {
            Some(u) => {
                let mut c = u.clone();
                if c.alliance == Alliance::Enemy && saved.contains(c.tag) {
                    c.is_hallucination = true;
                }
                v.push(c);
            },
            None => {},
        }
        i += 1;
    }
    proof {
        all.lemma_wf();
        let target = all_marked(all@, saved@);
        assert(views_of(v@) =~= target);
        assert forall|a: int, b: int| 0 <= a < b < target.len() implies (#[trigger] target[a]).tag != (
        #[trigger] target[b]).tag by {
            assert(all@[a].tag != all@[b].tag);
        }
        lemma_extended_distinct(target);
    }
    Units::from_vec(v)
}

/// Whether a unit is a hallucination of the opponent.
pub open spec fn is_enemy_hallucination(u: UnitView) -> bool {
    u.alliance == Alliance::Enemy && u.is_hallucination
}

/// The tags of the hallucinations of the opponent among the units.
pub open spec fn hallucination_tags(units: Seq<UnitView>) -> Set<u64> {
    Set::new(|t: u64| exists|i: int| tag_at(units, t, i) && is_enemy_hallucination(units[i]))
}

/// Notes the tags of the hallucinations of the opponent among the units.
pub fn note_hallucinations(saved: &mut TagSet, all: &Units)
    ensures
        final(saved)@ == old(saved)@.union(hallucination_tags(all@)),
{
    let n = all.len();
    let mut i: usize = 0;
    assert(saved@ =~= old(saved)@.union(hallucination_tags(all@.take(0))));
    while i < n
        invariant
            i <= n,
            n == all@.len(),
            saved@ == old(saved)@.union(hallucination_tags(all@.take(i as int))),
        decreases n - i,
    {
        let ghost seen = all@.take(i as int);
        let ghost next = all@.take(i + 1);
        match all.get_index(i) {
            Some(u) => {
                if u.alliance == Alliance::Enemy && u.is_hallucination {
                    saved.insert(u.tag);
                }
                proof {
                    assert forall|t: u64|
                        saved@.contains(t) == old(saved)@.union(hallucination_tags(next)).contains(
                            t,
                        ) by {
                        if hallucination_tags(seen).contains(t) {
                            let j = choose|j: int|
                                tag_at(seen, t, j) && is_enemy_hallucination(seen[j]);
                            assert(tag_at(next, t, j) && is_enemy_hallucination(next[j]));
                        }
                        if hallucination_tags(next).contains(t) {
                            let j = choose|j: int|
                                tag_at(next, t, j) && is_enemy_hallucination(next[j]);
                            if j < i {
                                assert(tag_at(seen, t, j) && is_enemy_hallucination(seen[j]));
                            }
                        }
                        if is_enemy_hallucination(u@) && t == u.tag {
                            assert(tag_at(next, t, i as int) && is_enemy_hallucination(
                                next[i as int],
                            ));
                        }
                    }
                    assert(saved@ =~= old(saved)@.union(hallucination_tags(next)));
                }
            },
            None => {},
        }
        i += 1;
    }
    assert(all@.take(n as int) =~= all@);
}

/// Whether a unit detects, or an effect is a scan of the opponent.
pub open spec fn any_watch(watchers: Seq<UnitView>, effects: Seq<Effect>) -> bool {
    (exists|i: int| 0 <= i < watchers.len() && (#[trigger] watchers[i]).is_detector()) || (exists|
        j: int,
    |
        0 <= j < effects.len() && (#[trigger] effects[j]).id == EffectId::ScannerSweep
            && effects[j].alliance == Alliance::Enemy)
}

/// How close to the reach of a detector a unit counts as detected, beyond
/// the reach itself; in 4096ths.
pub const REVEAL_GAP: i32 = 4096;

/// The unit with what the opponent can see of it: a unit of the bot that a
/// detector or a scan of the opponent reaches, or that is marked by an
/// oracle while the opponent detects at all, is revealed.
pub open spec fn exposed(u: UnitView, watchers: Seq<UnitView>, effects: Seq<Effect>) -> UnitView {
    if u.alliance == Alliance::Own && any_watch(watchers, effects) && (covered(
        u,
        watchers,
        effects,
        Alliance::Enemy,
        REVEAL_GAP as int,
    ) || u.has_buff(BuffId::OracleRevelation)) {
        UnitView { is_revealed: true, ..u }
    } else {
        u
    }
}

/// The units with what the opponent can see of them.
pub open spec fn all_exposed(units: Seq<UnitView>, watchers: Seq<UnitView>, effects: Seq<Effect>) -> Seq<
    UnitView,
> {
    units.map_values(|u: UnitView| exposed(u, watchers, effects))
}

/// Checks if a unit detects, or an effect is a scan of the opponent.
pub fn has_any_watch(watchers: &Units, effects: &Vec<Effect>) -> (r: bool)
    ensures
        r == any_watch(watchers@, effects@),
{
    let n = watchers.len();
    let mut i: usize = 0;
    while i < n
        invariant
            i <= n,
            n == watchers@.len(),
            forall|k: int| 0 <= k < i ==> !(#[trigger] watchers@[k]).is_detector(),
        decreases n - i,
    {
        match watchers.get_index(i) {
            Some(d) => {
                if d.is_detector() {
                    assert(watchers@[i as int].is_detector());
                    return true;
                }
            },
            None => {},
        }
        i += 1;
    }
    let mut j: usize = 0;
    while j < effects.len()
        invariant
            j <= effects.len(),
            n == watchers@.len(),
            forall|k: int| 0 <= k < n ==> !(#[trigger] watchers@[k]).is_detector(),
            forall|k: int|
                0 <= k < j ==> !((#[trigger] effects@[k]).id == EffectId::ScannerSweep
                    && effects@[k].alliance == Alliance::Enemy),
        decreases effects.len() - j,
    {
        if effects[j].id == EffectId::ScannerSweep && effects[j].alliance == Alliance::Enemy {
            return true;
        }
        j += 1;
    }
    false
}

/// The units with what the opponent can see of them; see [`exposed`].
pub fn expose_own(all: &Units, watchers: &Units, effects: &Vec<Effect>) -> (r: Units)
    requires
        all.wf(),
    ensures
        r.wf(),
        r@ == all_exposed(all@, watchers@, effects@),
{
    let watch = has_any_watch(watchers, effects);
    let mut v: Vec<Unit> = Vec::new();
    let n = all.len();
    let mut i: usize = 0;
    while i < n
        invariant
            i <= n,
            n == all@.len(),
            v.len() == i,
            watch == any_watch(watchers@, effects@),
            forall|j: int|
                0 <= j < i ==> (#[trigger] v[j])@ == exposed(all@[j], watchers@, effects@),
        decreases n - i,
    {
        match all.get_index(i) {
            Some(u) => {
                let mut c = u.clone();
                if watch && c.alliance == Alliance::Own && (is_covered(
                    u,
                    watchers,
                    effects,
                    Alliance::Enemy,
                    REVEAL_GAP,
                ) || u.has_buff(BuffId::OracleRevelation)) {
                    c.is_revealed = true;
                }
                v.push(c);
            },
            None => {},
        }
        i += 1;
    }
    proof {
        all.lemma_wf();
        let target = all_exposed(all@, watchers@, effects@);
        assert(views_of(v@) =~= target);
        assert forall|a: int, b: int| 0 <= a < b < target.len() implies (#[trigger] target[a]).tag != (
        #[trigger] target[b]).tag by {
            assert(all@[a].tag != all@[b].tag);
        }
        lemma_extended_distinct(target);
    }
    Units::from_vec(v)
}

/// Whether a unit is an add-on of the bot that stands: a tech lab (with
/// `techlab`) or a reactor (without).
pub open spec fn is_own_addon(u: UnitView, data: &GameData, techlab: bool) -> bool {
    u.alliance == Alliance::Own && u.is_structure(data) && u.display_type
        != DisplayType::Placeholder && if techlab {
        u.type_id.spec_is_techlab()
    } else {
        u.type_id.spec_is_reactor()
    }
}

/// The tags of the bot's tech labs (with `techlab`) or reactors (without)
/// among the units.
pub open spec fn addon_tags(units: Seq<UnitView>, data: &GameData, techlab: bool) -> Set<u64> {
    Set::new(|t: u64| exists|i: int| tag_at(units, t, i) && is_own_addon(units[i], data, techlab))
}

/// The tags of the bot's tech labs (with `techlab`) or reactors (without).
pub fn find_addons(all: &Units, data: &GameData, techlab: bool) -> (r: TagSet)
    ensures
        r@ == addon_tags(all@, data, techlab),
{
    let mut r = TagSet::new();
    let n = all.len();
    let mut i: usize = 0;
    assert(r@ =~= addon_tags(all@.take(0), data, techlab));
    while i < n
        invariant
            i <= n,
            n == all@.len(),
            r@ == addon_tags(all@.take(i as int), data, techlab),
        decreases n - i,
    {
        let ghost seen = all@.take(i as int);
        let ghost next = all@.take(i + 1);
        match all.get_index(i) {
            Some(u) => {
                let kind = if techlab {
                    u.type_id.is_techlab()
                } else {
                    u.type_id.is_reactor()
                };
                if kind && u.alliance == Alliance::Own && !u.is_placeholder() && u.is_structure(
                    data,
                ) {
                    r.insert(u.tag);
                }
                proof {
                    assert forall|t: u64|
                        r@.contains(t) == addon_tags(next, data, techlab).contains(t) by {
                        if addon_tags(seen, data, techlab).contains(t) {
                            let j = choose|j: int|
                                tag_at(seen, t, j) && is_own_addon(seen[j], data, techlab);
                            assert(tag_at(next, t, j) && is_own_addon(next[j], data, techlab));
                        }
                        if addon_tags(next, data, techlab).contains(t) {
                            let j = choose|j: int|
                                tag_at(next, t, j) && is_own_addon(next[j], data, techlab);
                            if j < i {
                                assert(tag_at(seen, t, j) && is_own_addon(seen[j], data, techlab));
                            }
                        }
                        if is_own_addon(u@, data, techlab) && t == u.tag {
                            assert(tag_at(next, t, i as int) && is_own_addon(
                                next[i as int],
                                data,
                                techlab,
                            ));
                        }
                    }
                    assert(r@ =~= addon_tags(next, data, techlab));
                }
            },
            None => {},
        }
        i += 1;
    }
    assert(all@.take(n as int) =~= all@);
    r
}

/// The hits of each unit whose hits are known.
pub open spec fn hits_of(units: Seq<UnitView>) -> Map<u64, u32> {
    Map::new(
        |t: u64| has_tag(units, t) && entry_of(units, t).hits().is_some(),
        |t: u64| entry_of(units, t).hits().unwrap() as u32,
    )
}

/// Notes the hits of each unit whose hits are known.
pub fn remember_hits(all: &Units) -> (r: TagMap)
    requires
        all.wf(),
    ensures
        r@ == hits_of(all@),
{
    let mut r = TagMap::new();
    let n = all.len();
    let mut i: usize = 0;
    proof {
        all.lemma_wf();
        assert(r@ =~= hits_of(all@.take(0))) by {
            assert forall|t: u64| !has_tag(all@.take(0), t) by {
                if has_tag(all@.take(0), t) {
                    let j = place_of(all@.take(0), t);
                }
            }
        }
    }
    while i < n
        invariant
            i <= n,
            n == all@.len(),
            distinct_tags(all@),
            r@ == hits_of(all@.take(i as int)),
        decreases n - i,
    {
        let ghost seen = all@.take(i as int);
        let ghost next = all@.take(i + 1);
        let ghost before = r@;
        match all.get_index(i) {
            Some(u) => {
                match u.hits() {
                    Some(h) => {
                        r.insert(u.tag, h);
                    },
                    None => {},
                }
                proof {
                    lemma_take_step(all@, i as int);
                    assert(r@ =~= hits_of(next));
                }
            },
            None => {},
        }
        i += 1;
    }
    assert(all@.take(n as int) =~= all@);
    r
}

/// The first `i + 1` units hold the first `i` units as they were, and the
/// unit at place `i` under its tag.
pub proof fn lemma_take_step(s: Seq<UnitView>, i: int)
    requires
        distinct_tags(s),
        0 <= i < s.len(),
    ensures
        !has_tag(s.take(i), s[i].tag),
        has_tag(s.take(i + 1), s[i].tag),
        entry_of(s.take(i + 1), s[i].tag) == s[i],
        forall|t: u64| #[trigger] has_tag(s.take(i + 1), t) <==> has_tag(s.take(i), t) || t == s[i].tag,
        forall|t: u64| has_tag(s.take(i), t) ==> #[trigger] entry_of(s.take(i + 1), t) == entry_of(s.take(i), t),
{
    let a = s.take(i);
    let b = s.take(i + 1);
    assert(distinct_tags(b)) by {
        assert forall|x: int, y: int| 0 <= x < y < b.len() implies (#[trigger] b[x]).tag != (
        #[trigger] b[y]).tag by {
            assert(s[x].tag != s[y].tag);
        }
    }
    if has_tag(a, s[i].tag) {
        let k = place_of(a, s[i].tag);
        assert(s[k].tag != s[i].tag);
    }
    assert(tag_at(b, s[i].tag, i));
    lemma_one_place(b, s[i].tag, i);
    assert forall|t: u64| #[trigger] has_tag(b, t) <==> has_tag(a, t) || t == s[i].tag by {
        if has_tag(b, t) {
            let k = place_of(b, t);
            if k < i {
                assert(tag_at(a, t, k));
            }
        }
        if has_tag(a, t) {
            let k = place_of(a, t);
            assert(tag_at(b, t, k));
        }
    }
    assert forall|t: u64| has_tag(a, t) implies #[trigger] entry_of(b, t) == entry_of(a, t) by {
        let k = place_of(a, t);
        assert(tag_at(b, t, k));
        lemma_one_place(b, t, k);
    }
}

/// For each unit the step of the game at which it was first seen: the step
/// noted before, or `game_loop` for a unit of which none was noted.
pub open spec fn seen_of(units: Seq<UnitView>, before: Map<u64, u32>, game_loop: u32) -> Map<u64, u32> {
    Map::new(
        |t: u64| has_tag(units, t),
        |t: u64|
            if before.contains_key(t) {
                before[t]
            } else {
                game_loop
            },
    )
}

/// Notes for each unit the step of the game at which it was first seen.
pub fn remember_seen(all: &Units, before: &TagMap, game_loop: u32) -> (r: TagMap)
    requires
        all.wf(),
    ensures
        r@ == seen_of(all@, before@, game_loop),
{
    let mut r = TagMap::new();
    let n = all.len();
    let mut i: usize = 0;
    proof {
        all.lemma_wf();
        assert(r@ =~= seen_of(all@.take(0), before@, game_loop)) by {
            assert forall|t: u64| !has_tag(all@.take(0), t) by {
                if has_tag(all@.take(0), t) {
                    let j = place_of(all@.take(0), t);
                }
            }
        }
    }
    while i < n
        invariant
            i <= n,
            n == all@.len(),
            distinct_tags(all@),
            r@ == seen_of(all@.take(i as int), before@, game_loop),
        decreases n - i,
    {
        let ghost next = all@.take(i + 1);
        match all.get_index(i) {
            Some(u) => {
                let first = match before.get(u.tag) {
                    Some(s) => s,
                    None => game_loop,
                };
                r.insert(u.tag, first);
                proof {
                    lemma_take_step(all@, i as int);
                    assert(r@ =~= seen_of(next, before@, game_loop));
                }
            },
            None => {},
        }
        i += 1;
    }
    assert(all@.take(n as int) =~= all@);
    r
}

/// The time noted for the type `t`; `None` where none is noted. Of two
/// entries for a type the first counts.
pub open spec fn cooldown_in(list: Seq<(UnitTypeId, i32)>, t: UnitTypeId) -> Option<i32>
    decreases list.len(),
{
    if list.len() == 0 {
        None
    } else if list[0].0 == t {
        Some(list[0].1)
    } else {
        cooldown_in(list.skip(1), t)
    }
}

/// The longest time between two shots that is known for the type `t` after
/// the units were looked at, where `base` was known before: the greatest of
/// `base` and the times that the bot's units of the type show.
pub open spec fn peak(units: Seq<UnitView>, t: UnitTypeId, base: Option<i32>) -> Option<i32>
    decreases units.len(),
{
    if units.len() == 0 {
        base
    } else {
        let before = peak(units.drop_last(), t, base);
        let u = units.last();
        if u.alliance == Alliance::Own && u.type_id == t && u.weapon_cooldown.is_some() {
            match before {
                Some(m) => if u.weapon_cooldown.unwrap() > m {
                    u.weapon_cooldown
                } else {
                    before
                },
                None => u.weapon_cooldown,
            }
        } else {
            before
        }
    }
}

proof fn lemma_cooldown_set(list: Seq<(UnitTypeId, i32)>, i: int, t: UnitTypeId, c: i32)
    requires
        0 <= i < list.len(),
        list[i].0 == t,
        forall|j: int| 0 <= j < i ==> (#[trigger] list[j]).0 != t,
    ensures
        cooldown_in(list, t) == Some(list[i].1),
        cooldown_in(list.update(i, (t, c)), t) == Some(c),
        forall|other: UnitTypeId|
            other != t ==> #[trigger] cooldown_in(list.update(i, (t, c)), other) == cooldown_in(
                list,
                other,
            ),
    decreases i,
{
    let after = list.update(i, (t, c));
    if i > 0 {
        assert(list[0].0 != t);
        assert(after.skip(1) =~= list.skip(1).update(i - 1, (t, c)));
        assert forall|j: int| 0 <= j < i - 1 implies (#[trigger] list.skip(1)[j]).0 != t by {
            assert(list[j + 1].0 != t);
        }
        lemma_cooldown_set(list.skip(1), i - 1, t, c);
        assert(after[0] == list[0]);
        assert forall|other: UnitTypeId| other != t implies #[trigger] cooldown_in(after, other)
            == cooldown_in(list, other) by {
            assert(cooldown_in(after.skip(1), other) == cooldown_in(list.skip(1), other));
        }
    } else {
        assert(after.skip(1) =~= list.skip(1));
        assert(after[0] == (t, c));
        assert forall|other: UnitTypeId| other != t implies #[trigger] cooldown_in(after, other)
            == cooldown_in(list, other) by {
            assert(cooldown_in(after.skip(1), other) == cooldown_in(list.skip(1), other));
        }
    }
}

proof fn lemma_cooldown_push(list: Seq<(UnitTypeId, i32)>, t: UnitTypeId, c: i32)
    requires
        forall|j: int| 0 <= j < list.len() ==> (#[trigger] list[j]).0 != t,
    ensures
        cooldown_in(list, t).is_none(),
        cooldown_in(list.push((t, c)), t) == Some(c),
        forall|other: UnitTypeId|
            other != t ==> #[trigger] cooldown_in(list.push((t, c)), other) == cooldown_in(list, other),
    decreases list.len(),
{
    let after = list.push((t, c));
    if list.len() > 0 {
        assert(list[0].0 != t);
        assert(after.skip(1) =~= list.skip(1).push((t, c)));
        assert forall|j: int| 0 <= j < list.skip(1).len() implies (#[trigger] list.skip(1)[j]).0
            != t by {
            assert(list[j + 1].0 != t);
        }
        lemma_cooldown_push(list.skip(1), t, c);
        assert(after[0] == list[0]);
        assert forall|other: UnitTypeId| other != t implies #[trigger] cooldown_in(after, other)
            == cooldown_in(list, other) by {
            assert(cooldown_in(after.skip(1), other) == cooldown_in(list.skip(1), other));
        }
    } else {
        assert(after.skip(1) =~= Seq::<(UnitTypeId, i32)>::empty());
        assert(after[0] == (t, c));
        assert forall|other: UnitTypeId| other != t implies #[trigger] cooldown_in(after, other)
            == cooldown_in(list, other) by {
            assert(cooldown_in(after.skip(1), other).is_none());
        }
    }
}

/// Notes for each type of the bot's units the longest time between two
/// shots that the units show, where it is longer than what was noted.
pub fn raise_cooldowns(list: &mut Vec<(UnitTypeId, i32)>, all: &Units)
    ensures
        forall|t: UnitTypeId|
            #[trigger] cooldown_in(final(list)@, t) == peak(all@, t, cooldown_in(old(list)@, t)),
{
    let n = all.len();
    let mut i: usize = 0;
    while i < n
        invariant
            i <= n,
            n == all@.len(),
            forall|t: UnitTypeId|
                #[trigger] cooldown_in(list@, t) == peak(
                    all@.take(i as int),
                    t,
                    cooldown_in(old(list)@, t),
                ),
        decreases n - i,
    {
        let ghost seen = all@.take(i as int);
        let ghost next = all@.take(i + 1);
        let ghost before = list@;
        match all.get_index(i) {
            Some(u) => {
                assert(next.drop_last() =~= seen);
                assert(next.last() == u@);
                if u.alliance == Alliance::Own {
                    match u.weapon_cooldown {
                        Some(c) => {
                            let t = u.type_id;
                            let mut k: usize = 0;
                            let mut found = false;
                            while k < list.len() && !found
                                invariant
                                    k <= list.len(),
                                    list@ == before,
                                    !found ==> forall|j: int|
                                        0 <= j < k ==> (#[trigger] list@[j]).0 != t,
                                    found ==> k < list.len() && list@[k as int].0 == t && forall|
                                        j: int,
                                    | 0 <= j < k ==> (#[trigger] list@[j]).0 != t,
                                decreases list.len() - k + if found {
                                    0int
                                } else {
                                    1int
                                },
                            {
                                if list[k].0 == t {
                                    found = true;
                                } else {
                                    k += 1;
                                }
                            }
                            if found {
                                proof {
                                    lemma_cooldown_set(before, k as int, t, c);
                                }
                                if c > list[k].1 {
                                    list.set(k, (t, c));
                                }
                            } else {
                                proof {
                                    lemma_cooldown_push(before, t, c);
                                }
                                list.push((t, c));
                            }
                        },
                        None => {},
                    }
                }
                assert forall|t: UnitTypeId| #[trigger] cooldown_in(list@, t) == peak(
                    next,
                    t,
                    cooldown_in(old(list)@, t),
                ) by {
                    assert(cooldown_in(before, t) == peak(seen, t, cooldown_in(old(list)@, t)));
                }
            },
            None => {},
        }
        i += 1;
    }
    assert(all@.take(n as int) =~= all@);
}

} // verus!
