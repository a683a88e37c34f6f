//! What holds of the bot from one observation to the next, whatever the
//! observations show.
use vstd::prelude::*;
use crate::bot::{in_steps, stepped, took_units, Bot};
use crate::cache::{
    covered, lemma_conservative, lemma_resettled, scene_of, settled, verdict, verdict_on, Scene,
    Verdict,
};
use crate::classify::{in_player_group, player_groups, PlayerGroup};
use crate::burial::{after_deaths, death_events, forgotten, Known};
use crate::events::{lemma_complete_cause, lemma_started_now, lifecycle};
use crate::game_data::GameData;
use crate::game_state::{Alliance, Event, Race};
use crate::tags::{lemma_without_keeps_order, without};
use crate::unit::{cell_visible, DisplayType, UnitView};
use crate::units::{
    distinct_tags, entry_of, extended, has_tag, lemma_extended, lemma_filter_tags, lemma_one_place,
    place_of, tag_at, PlayerView,
};
use crate::upkeep::all_marked;

verus! {

/// Deaths make the bot forget tags and learn none: what is owned or under
/// construction after them was so before, and what was owned and did not
/// die is owned still.
pub proof fn lemma_deaths_forget(dead: Seq<u64>, k: Known, terran: bool, t: u64)
    ensures
        after_deaths(dead, k, terran).building.contains(t) ==> k.building.contains(t),
        after_deaths(dead, k, terran).owned.contains(t) ==> k.owned.contains(t),
        k.owned.contains(t) && !dead.contains(t) ==> after_deaths(dead, k, terran).owned.contains(t),
    decreases dead.len(),
{
    if dead.len() > 0 {
        let next = forgotten(k, dead[0], terran);
        lemma_deaths_forget(dead.skip(1), next, terran, t);
        if k.owned.contains(t) && !dead.contains(t) {
            assert(dead[0] != t);
            assert(!dead.skip(1).contains(t)) by {
                if dead.skip(1).contains(t) {
                    let i = choose|i: int| 0 <= i < dead.skip(1).len() && dead.skip(1)[i] == t;
                    assert(dead[i + 1] == t);
                }
            }
        }
    }
}

/// Deaths are told as deaths and as nothing else.
pub proof fn lemma_deaths_told(dead: Seq<u64>, k: Known, terran: bool, i: int)
    requires
        0 <= i < death_events(dead, k, terran).len(),
    ensures
        death_events(dead, k, terran)[i] is UnitDestroyed,
    decreases dead.len(),
{
    if dead.len() > 0 {
        let rest = death_events(dead.skip(1), forgotten(k, dead[0], terran), terran);
        match crate::burial::fate(k, dead[0], terran) {
            Some(a) => {
                if i > 0 {
                    lemma_deaths_told(dead.skip(1), forgotten(k, dead[0], terran), terran, i - 1);
                }
            },
            None => {
                lemma_deaths_told(dead.skip(1), forgotten(k, dead[0], terran), terran, i);
            },
        }
    }
}

/// Of the events of an observation, those that tell of construction come
/// from comparing the bot's units with the tags it owned.
proof fn lemma_told_by_lifecycle(
    pre: Bot,
    a: Bot,
    b: Bot,
    c: Bot,
    post: Bot,
    dead: Seq<u64>,
    all_units: Seq<UnitView>,
    e1: Seq<Event>,
    e2: Seq<Event>,
    e3: Seq<Event>,
    e: Event,
)
    requires
        in_steps(pre, a, b, c, post, dead, all_units, e1, e2, e3),
        (e1 + e2 + e3).contains(e),
        e is ConstructionComplete || e is ConstructionStarted,
    ensures
        e2.contains(e),
{
    let all = e1 + e2 + e3;
    let i = choose|i: int| 0 <= i < all.len() && all[i] == e;
    if i < e1.len() {
        assert(all[i] == e1[i]);
        lemma_deaths_told(dead, pre.known(), pre.enemy_race == Race::Terran, i);
    } else if i < e1.len() + e2.len() {
        assert(all[i] == e2[i - e1.len()]);
    } else {
        assert(all[i] == e3[i - e1.len() - e2.len()]);
    }
}

/// No structure is told finished out of nothing.
///
/// Where the bot takes in an observation and tells that construction of a
/// structure finished, and the structure is not among the dead of that
/// observation, the structure was under construction before, or the bot did
/// not own it before and so it appeared complete.
pub proof fn lemma_step_complete(
    pre: Bot,
    post: Bot,
    dead: Seq<u64>,
    all_units: Seq<UnitView>,
    events: Seq<Event>,
    t: u64,
)
    requires
        stepped(pre, post, dead, all_units, events),
        events.contains(Event::ConstructionComplete(t)),
        !dead.contains(t),
    ensures
        pre.under_construction@.contains(t) || !pre.owned_tags@.contains(t),
{
    let (a, b, c, e1, e2, e3) = choose|
        a: Bot,
        b: Bot,
        c: Bot,
        e1: Seq<Event>,
        e2: Seq<Event>,
        e3: Seq<Event>,
    | #[trigger]
        in_steps(pre, a, b, c, post, dead, all_units, e1, e2, e3) && events == e1 + e2 + e3;
    lemma_told_by_lifecycle(
        pre,
        a,
        b,
        c,
        post,
        dead,
        all_units,
        e1,
        e2,
        e3,
        Event::ConstructionComplete(t),
    );
    lemma_complete_cause(b.units.my.all@, &b.game_data, b.owned_tags@, b.under_construction@, t);
    lemma_deaths_forget(dead, pre.known(), pre.enemy_race == Race::Terran, t);
}

/// Whether the event tells of the making of the unit with the tag `t`.
pub open spec fn tells_of(e: Event, t: u64) -> bool {
    e == Event::UnitCreated(t) || e == Event::ConstructionStarted(t) || e
        == Event::ConstructionComplete(t)
}

/// Of a unit that was owned and not under construction nothing is told.
pub proof fn lemma_owned_is_quiet(
    units: Seq<UnitView>,
    data: &GameData,
    owned: Set<u64>,
    building: Set<u64>,
    t: u64,
    i: int,
)
    requires
        owned.contains(t),
        !building.contains(t),
        0 <= i < lifecycle(units, data, owned, building).len(),
    ensures
        !tells_of(lifecycle(units, data, owned, building)[i], t),
    decreases units.len(),
{
    if units.len() > 0 {
        let before = lifecycle(units.drop_last(), data, owned, building);
        if i < before.len() {
            lemma_owned_is_quiet(units.drop_last(), data, owned, building, t, i);
        }
    }
}

/// A unit is told of once.
///
/// Where the bot owned a unit before an observation, the unit was not under
/// construction and the observation does not tell its death, the bot tells
/// nothing of its making: not that it was created, nor that its
/// construction started or finished.
pub proof fn lemma_step_quiet(
    pre: Bot,
    post: Bot,
    dead: Seq<u64>,
    all_units: Seq<UnitView>,
    events: Seq<Event>,
    t: u64,
    i: int,
)
    requires
        stepped(pre, post, dead, all_units, events),
        pre.owned_tags@.contains(t),
        !pre.under_construction@.contains(t),
        !dead.contains(t),
        0 <= i < events.len(),
    ensures
        !tells_of(events[i], t),
{
    let (a, b, c, e1, e2, e3) = choose|
        a: Bot,
        b: Bot,
        c: Bot,
        e1: Seq<Event>,
        e2: Seq<Event>,
        e3: Seq<Event>,
    | #[trigger]
        in_steps(pre, a, b, c, post, dead, all_units, e1, e2, e3) && events == e1 + e2 + e3;
    lemma_deaths_forget(dead, pre.known(), pre.enemy_race == Race::Terran, t);
    if i < e1.len() {
        assert(events[i] == e1[i]);
        lemma_deaths_told(dead, pre.known(), pre.enemy_race == Race::Terran, i);
    } else if i < e1.len() + e2.len() {
        assert(events[i] == e2[i - e1.len()]);
        lemma_owned_is_quiet(
            b.units.my.all@,
            &b.game_data,
            b.owned_tags@,
            b.under_construction@,
            t,
            i - e1.len(),
        );
    } else {
        assert(events[i] == e3[i - e1.len() - e2.len()]);
    }
}

/// The opponent's units that an observation shows, as the bot sorts them.
pub open spec fn shown_enemy(pre: Bot, all_units: Seq<UnitView>) -> PlayerView {
    player_groups(
        all_marked(all_units, pre.saved_hallucinations@),
        &pre.game_data,
        Alliance::Enemy,
    )
}

/// What an observation shows around the units that the bot remembers.
pub open spec fn shown_scene(pre: Bot, all_units: Seq<UnitView>) -> Scene {
    scene_of(
        shown_enemy(pre, all_units),
        player_groups(
            all_marked(all_units, pre.saved_hallucinations@),
            &pre.game_data,
            Alliance::Own,
        ).all,
        pre.state.observation.raw.effects@,
        pre.enemy_race == Race::Zerg,
    )
}

/// The opponent's units that an observation shows are among its units, and
/// no two of them share a tag where no two units of the observation do.
pub proof fn lemma_shown_enemy(pre: Bot, all_units: Seq<UnitView>)
    requires
        distinct_tags(all_units),
    ensures
        distinct_tags(shown_enemy(pre, all_units).all),
        forall|t: u64| #[trigger]
            has_tag(shown_enemy(pre, all_units).all, t) ==> has_tag(all_units, t),
{
    let given = all_marked(all_units, pre.saved_hallucinations@);
    let data = &pre.game_data;
    let pred = |u: UnitView| in_player_group(u, data, Alliance::Enemy, PlayerGroup::All);
    assert forall|i: int, j: int| 0 <= i < j < given.len() implies (#[trigger] given[i]).tag != (
    #[trigger] given[j]).tag by {
        assert(given[i].tag == all_units[i].tag);
        assert(given[j].tag == all_units[j].tag);
    }
    lemma_filter_tags(given, pred);
    assert(shown_enemy(pre, all_units).all == given.filter(pred));
    assert forall|t: u64| #[trigger] has_tag(shown_enemy(pre, all_units).all, t) implies has_tag(
        all_units,
        t,
    ) by {
        let i = choose|i: int| tag_at(given, t, i) && pred(given[i]);
        assert(given[i].tag == all_units[i].tag);
        assert(tag_at(all_units, t, i));
    }
}

/// The bot never takes a hiding unit of the opponent for one that can be
/// attacked.
///
/// Let the bot take in the units of an observation and remember a unit of
/// the opponent after it. Where the unit counts as cloaked or burrowed by
/// assumption, it cannot be attacked. And where the observation does not
/// show the unit, the bot remembered it before; if it could not be attacked
/// then, it cannot be attacked now, and no detector or scan of the bot
/// reaches its place unless the place is not seen.
pub proof fn lemma_units_conservative(pre: Bot, post: Bot, all_units: Seq<UnitView>, t: u64)
    requires
        took_units(pre, post, all_units),
        distinct_tags(pre.units.cached.all@),
        distinct_tags(all_units),
        has_tag(post.units.cached.all@, t),
    ensures
        ({
            let before = pre.units.cached.all@;
            let after = post.units.cached.all@;
            let scene = shown_scene(pre, all_units);
            let visibility = &pre.state.observation.raw.visibility;
            let v = verdict_on(
                t,
                extended(before, scene.current),
                scene,
                visibility,
                &pre.game_data,
            );
            &&& (v == Verdict::Cloaked || v is Burrowed) ==> !entry_of(after, t).can_be_attacked()
            &&& !has_tag(all_units, t) ==> has_tag(before, t) && (!entry_of(
                before,
                t,
            ).can_be_attacked() ==> !entry_of(after, t).can_be_attacked() && (covered(
                entry_of(before, t),
                scene.watchers,
                scene.effects,
                Alliance::Own,
                0,
            ) ==> !cell_visible(visibility, entry_of(before, t).position)))
        }),
{
    lemma_shown_enemy(pre, all_units);
    let scene = shown_scene(pre, all_units);
    assert(scene.current == shown_enemy(pre, all_units).all);
    assert(post.units.cached@.all == post.units.cached.all@);
    lemma_conservative(
        pre.units.cached.all@,
        scene,
        &pre.state.observation.raw.visibility,
        &pre.game_data,
        t,
    );
}

/// A unit that the bot takes to be burrowed stays so while nothing shows
/// otherwise.
///
/// Let the bot remember a unit of the opponent as hidden and burrowed, no
/// structure on the ground, and let it take in an observation that does not
/// show the unit while no detector or scan of the bot reaches the unit's
/// place. Then the bot remembers the unit as before, whether the place is
/// seen or not.
pub proof fn lemma_units_keep_burrowed(pre: Bot, post: Bot, all_units: Seq<UnitView>, t: u64)
    requires
        took_units(pre, post, all_units),
        distinct_tags(pre.units.cached.all@),
        distinct_tags(all_units),
        has_tag(pre.units.cached.all@, t),
        !has_tag(all_units, t),
        ({
            let e = entry_of(pre.units.cached.all@, t);
            let scene = shown_scene(pre, all_units);
            &&& e.is_burrowed
            &&& e.display_type == DisplayType::Hidden
            &&& e.is_flying || !e.is_structure(&pre.game_data)
            &&& !covered(e, scene.watchers, scene.effects, Alliance::Own, 0)
        }),
    ensures
        has_tag(post.units.cached.all@, t),
        entry_of(post.units.cached.all@, t) == entry_of(pre.units.cached.all@, t),
{
    lemma_shown_enemy(pre, all_units);
    let before = pre.units.cached.all@;
    let scene = shown_scene(pre, all_units);
    let visibility = &pre.state.observation.raw.visibility;
    let data = &pre.game_data;
    let all = extended(before, scene.current);
    assert(scene.current == shown_enemy(pre, all_units).all);
    assert(post.units.cached@.all == post.units.cached.all@);
    lemma_extended(before, scene.current);
    lemma_resettled(all, all, scene, visibility, data);
    let e = entry_of(before, t);
    assert(entry_of(all, t) == e);
    assert(has_tag(all, t));
    lemma_one_place(before, t, place_of(before, t));
    assert(e.tag == t);
    let v = verdict_on(t, all, scene, visibility, data);
    assert(v == verdict(e, scene, visibility, data));
    assert(v == Verdict::Unchanged || v == Verdict::Hidden);
    assert(settled(e, v) == e);
}

/// Whether the key never falls along the tags.
pub open spec fn in_order_of(tags: Seq<u64>, key: spec_fn(u64) -> int) -> bool {
    forall|i: int, j: int| 0 <= i < j < tags.len() ==> key(tags[i]) <= key(tags[j])
}

/// Deaths leave the mineral fields of a base in their order.
pub proof fn lemma_deaths_keep_order(
    dead: Seq<u64>,
    k: Known,
    terran: bool,
    b: int,
    key: spec_fn(u64) -> int,
)
    requires
        0 <= b < k.minerals.len(),
        in_order_of(k.minerals[b], key),
    ensures
        after_deaths(dead, k, terran).minerals.len() == k.minerals.len(),
        in_order_of(after_deaths(dead, k, terran).minerals[b], key),
    decreases dead.len(),
{
    if dead.len() > 0 {
        let next = forgotten(k, dead[0], terran);
        assert(next.minerals.len() == k.minerals.len());
        assert(next.minerals[b] == k.minerals[b] || next.minerals[b] == without(
            k.minerals[b],
            dead[0],
        ));
        lemma_without_keeps_order(k.minerals[b], dead[0], key);
        lemma_deaths_keep_order(dead.skip(1), next, terran, b, key);
    }
}

/// The mineral fields of a base stay in their order.
///
/// Where the mineral fields of a base stand in the order of a key, such as
/// their distance to the main building, they do so still after the bot took
/// in an observation, whichever of them it tells to be gone; and the base
/// stands where it stood.
pub proof fn lemma_step_keeps_order(
    pre: Bot,
    post: Bot,
    dead: Seq<u64>,
    all_units: Seq<UnitView>,
    events: Seq<Event>,
    b: int,
    key: spec_fn(u64) -> int,
)
    requires
        stepped(pre, post, dead, all_units, events),
        0 <= b < pre.expansions@.len(),
        in_order_of(pre.expansions@[b].minerals@, key),
    ensures
        post.expansions@.len() == pre.expansions@.len(),
        post.expansions@[b].loc == pre.expansions@[b].loc,
        in_order_of(post.expansions@[b].minerals@, key),
{
    let (a, m, c, e1, e2, e3) = choose|
        a: Bot,
        m: Bot,
        c: Bot,
        e1: Seq<Event>,
        e2: Seq<Event>,
        e3: Seq<Event>,
    | #[trigger]
        in_steps(pre, a, m, c, post, dead, all_units, e1, e2, e3) && events == e1 + e2 + e3;
    let terran = pre.enemy_race == Race::Terran;
    assert(pre.known().minerals[b] == pre.expansions@[b].minerals@);
    lemma_deaths_keep_order(dead, pre.known(), terran, b, key);
    assert(a.known().minerals[b] == a.expansions@[b].minerals@);
    assert(m.expansions@[b].minerals == a.expansions@[b].minerals);
}

/// One observation as the bot took it in: the deaths it told, the units it
/// showed, and the events that the bot told of it.
pub struct Step {
    /// Tags of the units that died.
    pub dead: Seq<u64>,
    /// The units that the observation showed.
    pub units: Seq<UnitView>,
    /// What the bot told.
    pub events: Seq<Event>,
}

/// Whether `bots` are the states of one bot from the start of a game on,
/// each made from the one before by taking in the next of `steps`. At the
/// start nothing is under construction.
pub open spec fn is_run(bots: Seq<Bot>, steps: Seq<Step>) -> bool {
    &&& bots.len() == steps.len() + 1
    &&& bots[0].under_construction@ == Set::<u64>::empty()
    &&& forall|i: int|
        0 <= i < steps.len() ==> stepped(
            bots[i],
            bots[i + 1],
            (#[trigger] steps[i]).dead,
            steps[i].units,
            steps[i].events,
        )
}

/// What is under construction was told to have been started.
pub proof fn lemma_run_started(bots: Seq<Bot>, steps: Seq<Step>, i: int, t: u64)
    requires
        is_run(bots, steps),
        0 <= i <= steps.len(),
        bots[i].under_construction@.contains(t),
    ensures
        exists|j: int| 0 <= j < i && (#[trigger] steps[j]).events.contains(Event::ConstructionStarted(t)),
    decreases i,
{
    if i > 0 {
        let pre = bots[i - 1];
        let post = bots[i];
        let s = steps[i - 1];
        assert(stepped(pre, post, s.dead, s.units, s.events));
        if pre.under_construction@.contains(t) {
            lemma_run_started(bots, steps, i - 1, t);
            let j = choose|j: int|
                0 <= j < i - 1 && (#[trigger] steps[j]).events.contains(Event::ConstructionStarted(t));
            assert(0 <= j < i && steps[j].events.contains(Event::ConstructionStarted(t)));
        } else {
            let (a, b, c, e1, e2, e3) = choose|
                a: Bot,
                b: Bot,
                c: Bot,
                e1: Seq<Event>,
                e2: Seq<Event>,
                e3: Seq<Event>,
            | #[trigger]
                in_steps(pre, a, b, c, post, s.dead, s.units, e1, e2, e3) && s.events == e1 + e2
                    + e3;
            lemma_deaths_forget(s.dead, pre.known(), pre.enemy_race == Race::Terran, t);
            assert(!b.under_construction@.contains(t));
            assert(c.under_construction@.contains(t));
            lemma_started_now(
                b.units.my.all@,
                &b.game_data,
                b.owned_tags@,
                b.under_construction@,
                t,
            );
            let k = choose|k: int| 0 <= k < e2.len() && e2[k] == Event::ConstructionStarted(t);
            assert((e1 + e2 + e3)[e1.len() + k] == Event::ConstructionStarted(t));
            assert(steps[i - 1].events.contains(Event::ConstructionStarted(t)));
        }
    }
}

/// Over a whole game no structure is told finished out of nothing.
///
/// Where the bot tells at some observation that construction of a structure
/// finished, it told at an earlier one that the construction started, or it
/// did not own the structure before that observation, or the observation
/// tells the structure's death too.
pub proof fn lemma_run_complete_follows_start(bots: Seq<Bot>, steps: Seq<Step>, i: int, t: u64)
    requires
        is_run(bots, steps),
        0 <= i < steps.len(),
        steps[i].events.contains(Event::ConstructionComplete(t)),
    ensures
        !bots[i].owned_tags@.contains(t) || steps[i].dead.contains(t) || exists|j: int|
            0 <= j < i && (#[trigger] steps[j]).events.contains(Event::ConstructionStarted(t)),
{
    let s = steps[i];
    assert(stepped(bots[i], bots[i + 1], s.dead, s.units, s.events));
    if !s.dead.contains(t) {
        lemma_step_complete(bots[i], bots[i + 1], s.dead, s.units, s.events, t);
        if bots[i].under_construction@.contains(t) {
            lemma_run_started(bots, steps, i, t);
        }
    }
}

} // verus!
