//! What happened to the bot's units between two observations.
//!
//! The bot keeps the tags of the units it owned at the observation before,
//! and the tags of its structures that are under construction. Comparing the
//! units of a new observation with both tells which units are new and which
//! structures were finished.
use vstd::prelude::*;
use crate::game_data::GameData;
use crate::game_state::Event;
use crate::ids::UnitTypeId;
use crate::tags::TagSet;
use crate::unit::{DisplayType, Unit, UnitView};
use crate::units::{distinct_tags, has_tag, tag_at, tag_set, Units};

verus! {

/// Whether a new unit of the bot is a structure whose construction is told:
/// a structure that is no placeholder and no charge thrown by a reaper.
pub open spec fn is_building_site(u: UnitView, data: &GameData) -> bool {
    u.is_structure(data) && u.display_type != DisplayType::Placeholder && u.type_id
        != UnitTypeId::KD8Charge
}

/// The event that a unit of the bot gives rise to, if any, where `owned` are
/// the tags owned before and `building` those under construction before.
///
/// A unit that was not owned is new: a structure that is still being built
/// was started, one that is complete was finished, any other unit was
/// created. A unit that was under construction and is complete was finished.
pub open spec fn unit_event(u: UnitView, data: &GameData, owned: Set<u64>, building: Set<u64>) -> Option<
    Event,
> {
    if !owned.contains(u.tag) {
        if u.is_structure(data) {
            if !is_building_site(u, data) {
                None
            } else if u.is_ready() {
                Some(Event::ConstructionComplete(u.tag))
            } else {
                Some(Event::ConstructionStarted(u.tag))
            }
        } else {
            Some(Event::UnitCreated(u.tag))
        }
    } else if building.contains(u.tag) && u.is_ready() {
        Some(Event::ConstructionComplete(u.tag))
    } else {
        None
    }
}

/// The events that the bot's units give rise to, in the order of the units.
pub open spec fn lifecycle(units: Seq<UnitView>, data: &GameData, owned: Set<u64>, building: Set<u64>) -> Seq<
    Event,
>
    decreases units.len(),
{
    if units.len() == 0 {
        Seq::empty()
    } else {
        let before = lifecycle(units.drop_last(), data, owned, building);
        match unit_event(units.last(), data, owned, building) {
            Some(e) => before.push(e),
            None => before,
        }
    }
}

/// The tags under construction after the bot's units were looked at: those
/// that were so before and are not finished now, and those started now.
pub open spec fn next_building(
    units: Seq<UnitView>,
    data: &GameData,
    owned: Set<u64>,
    building: Set<u64>,
) -> Set<u64>
    decreases units.len(),
{
    if units.len() == 0 {
        building
    } else {
        let before = next_building(units.drop_last(), data, owned, building);
        let u = units.last();
        if unit_event(u, data, owned, building) == Some(Event::ConstructionStarted(u.tag)) {
            before.insert(u.tag)
        } else if owned.contains(u.tag) && building.contains(u.tag) && u.is_ready() {
            before.remove(u.tag)
        } else {
            before
        }
    }
}

/// The tags owned after the bot's units were looked at: those owned before
/// and those of the units.
pub open spec fn next_owned(units: Seq<UnitView>, owned: Set<u64>) -> Set<u64> {
    owned.union(tag_set(units))
}

/// The event that a unit of the bot gives rise to; see [`unit_event`].
pub fn event_of(u: &Unit, data: &GameData, owned: &TagSet, building: &TagSet) -> (r: Option<Event>)
    ensures
        r == unit_event(u@, data, owned@, building@),
{
    if !owned.contains(u.tag) {
        if u.is_structure(data) {
            if u.is_placeholder() || u.type_id == UnitTypeId::KD8Charge {
                None
            } else if u.is_ready() {
                Some(Event::ConstructionComplete(u.tag))
            } else {
                Some(Event::ConstructionStarted(u.tag))
            }
        } else {
            Some(Event::UnitCreated(u.tag))
        }
    } else if building.contains(u.tag) && u.is_ready() {
        Some(Event::ConstructionComplete(u.tag))
    } else {
        None
    }
}

proof fn lemma_tag_set_step(s: Seq<UnitView>, i: int)
    requires
        0 <= i < s.len(),
    ensures
        tag_set(s.take(i + 1)) == tag_set(s.take(i)).insert(s[i].tag),
        distinct_tags(s) ==> !tag_set(s.take(i)).contains(s[i].tag),
{
    let a = s.take(i);
    let b = s.take(i + 1);
    assert forall|t: u64| tag_set(b).contains(t) == tag_set(a).insert(s[i].tag).contains(t) by {
        if has_tag(b, t) {
            let k = choose|k: int| tag_at(b, t, k);
            if k < i {
                assert(tag_at(a, t, k));
            }
        }
        if has_tag(a, t) {
            let k = choose|k: int| tag_at(a, t, k);
            assert(tag_at(b, t, k));
        }
        if t == s[i].tag {
            assert(tag_at(b, t, i));
        }
    }
    assert(tag_set(b) =~= tag_set(a).insert(s[i].tag));
    if distinct_tags(s) && has_tag(a, s[i].tag) {
        let k = choose|k: int| tag_at(a, s[i].tag, k);
        assert(s[k].tag != s[i].tag);
    }
}

/// The sets of tags after some units differ from the sets before only in
/// the tags of those units.
proof fn lemma_untouched(units: Seq<UnitView>, data: &GameData, owned: Set<u64>, building: Set<u64>, t: u64)
    requires
        !has_tag(units, t),
    ensures
        next_building(units, data, owned, building).contains(t) == building.contains(t),
    decreases units.len(),
{
    if units.len() > 0 {
        let head = units.drop_last();
        if has_tag(head, t) {
            let k = choose|k: int| tag_at(head, t, k);
            assert(tag_at(units, t, k));
        }
        lemma_untouched(head, data, owned, building, t);
        assert(units.last().tag != t) by {
            if units.last().tag == t {
                assert(tag_at(units, t, units.len() - 1));
            }
        }
    }
}

/// Compares the bot's units with the tags owned and under construction
/// before, tells what happened, and brings both sets up to date.
pub fn lifecycle_events(
    my_all: &Units,
    data: &GameData,
    owned_tags: &mut TagSet,
    under_construction: &mut TagSet,
) -> (events: Vec<Event>)
    requires
        my_all.wf(),
    ensures
        events@ == lifecycle(my_all@, data, old(owned_tags)@, old(under_construction)@),
        final(owned_tags)@ == next_owned(my_all@, old(owned_tags)@),
        final(under_construction)@ == next_building(
            my_all@,
            data,
            old(owned_tags)@,
            old(under_construction)@,
        ),
{
    let ghost owned0 = owned_tags@;
    let ghost building0 = under_construction@;
    let mut events: Vec<Event> = Vec::new();
    let n = my_all.len();
    let mut i: usize = 0;
    proof {
        my_all.lemma_wf();
        assert(tag_set(my_all@.take(0)) =~= Set::<u64>::empty());
        assert(owned0.union(Set::<u64>::empty()) =~= owned0);
    }
    while i < n
        invariant
            i <= n,
            n == my_all@.len(),
            distinct_tags(my_all@),
            events@ == lifecycle(my_all@.take(i as int), data, owned0, building0),
            owned_tags@ == owned0.union(tag_set(my_all@.take(i as int))),
            under_construction@ == next_building(my_all@.take(i as int), data, owned0, building0),
        decreases n - i,
    {
        let ghost seen = my_all@.take(i as int);
        match my_all.get_index(i) {
            Some(u) => {
                proof {
                    assert(my_all@.take(i + 1).drop_last() =~= seen);
                    lemma_tag_set_step(my_all@, i as int);
                    lemma_untouched(seen, data, owned0, building0, u.tag);
                }
                let e = event_of(u, data, owned_tags, under_construction);
                assert(e == unit_event(u@, data, owned0, building0));
                match e {
                    Some(ev) => {
                        events.push(ev);
                    },
                    None => {},
                }
                let was_owned = !owned_tags.insert(u.tag);
                match e {
                    Some(Event::ConstructionStarted(_)) => {
                        under_construction.insert(u.tag);
                    },
                    Some(Event::ConstructionComplete(_)) => {
                        if was_owned {
                            under_construction.remove(u.tag);
                        }
                    },
                    _ => {},
                }
                proof {
                    assert(owned_tags@ =~= owned0.union(tag_set(my_all@.take(i + 1))));
                }
            },
            None => {},
        }
        i += 1;
    }
    assert(my_all@.take(n as int) =~= my_all@);
    events
}

/// What one observation meant for the bot's units: the units it showed, and
/// the tags owned and under construction before it.
pub struct Tick {
    /// The bot's units that the observation showed.
    pub units: Seq<UnitView>,
    /// Tags owned before the observation.
    pub owned: Set<u64>,
    /// Tags under construction before the observation.
    pub building: Set<u64>,
}

/// Whether `ticks` can follow one another from the start of a game: at first
/// nothing is under construction, and what is under construction before an
/// observation was so after the one before. Units that died in between may
/// be missing.
pub open spec fn is_history(ticks: Seq<Tick>, data: &GameData) -> bool {
    &&& ticks.len() > 0 ==> ticks[0].building == Set::<u64>::empty()
    &&& forall|i: int|
        0 <= i < ticks.len() - 1 ==> (#[trigger] ticks[i + 1]).building.subset_of(
            next_building(ticks[i].units, data, ticks[i].owned, ticks[i].building),
        )
}

/// The events of the observation `i` of a history.
pub open spec fn events_at(ticks: Seq<Tick>, data: &GameData, i: int) -> Seq<Event> {
    lifecycle(ticks[i].units, data, ticks[i].owned, ticks[i].building)
}

/// A structure that is under construction after the units were looked at
/// and was not so before was told to have been started.
pub proof fn lemma_started_now(units: Seq<UnitView>, data: &GameData, owned: Set<u64>, building: Set<u64>, t: u64)
    requires
        next_building(units, data, owned, building).contains(t),
        !building.contains(t),
    ensures
        lifecycle(units, data, owned, building).contains(Event::ConstructionStarted(t)),
    decreases units.len(),
{
    if units.len() > 0 {
        let head = units.drop_last();
        let u = units.last();
        let before = lifecycle(head, data, owned, building);
        let now = lifecycle(units, data, owned, building);
        if unit_event(u, data, owned, building) == Some(Event::ConstructionStarted(u.tag)) && u.tag
            == t {
            assert(now[now.len() - 1] == Event::ConstructionStarted(t));
        } else {
            lemma_started_now(head, data, owned, building, t);
            let k = choose|k: int| 0 <= k < before.len() && before[k] == Event::ConstructionStarted(t);
            assert(now[k] == Event::ConstructionStarted(t));
        }
    }
}

/// A structure that is told finished was under construction before or was
/// not owned before.
pub proof fn lemma_complete_cause(units: Seq<UnitView>, data: &GameData, owned: Set<u64>, building: Set<u64>, t: u64)
    requires
        lifecycle(units, data, owned, building).contains(Event::ConstructionComplete(t)),
    ensures
        !owned.contains(t) || building.contains(t),
    decreases units.len(),
{
    if units.len() > 0 {
        let head = units.drop_last();
        let before = lifecycle(head, data, owned, building);
        let now = lifecycle(units, data, owned, building);
        let k = choose|k: int| 0 <= k < now.len() && now[k] == Event::ConstructionComplete(t);
        if k < before.len() {
            assert(before[k] == Event::ConstructionComplete(t));
            lemma_complete_cause(head, data, owned, building, t);
        }
    }
}

proof fn lemma_building_was_started(ticks: Seq<Tick>, data: &GameData, i: int, t: u64)
    requires
        is_history(ticks, data),
        0 <= i < ticks.len(),
        ticks[i].building.contains(t),
    ensures
        exists|j: int|
            0 <= j < i && (#[trigger] events_at(ticks, data, j)).contains(Event::ConstructionStarted(t)),
    decreases i,
{
    if i > 0 {
        let p = ticks[i - 1];
        assert(ticks[i - 1 + 1].building.subset_of(
            next_building(p.units, data, p.owned, p.building),
        ));
        if p.building.contains(t) {
            lemma_building_was_started(ticks, data, i - 1, t);
            let j = choose|j: int|
                0 <= j < i - 1 && (#[trigger] events_at(ticks, data, j)).contains(
                    Event::ConstructionStarted(t),
                );
            assert(0 <= j < i && events_at(ticks, data, j).contains(Event::ConstructionStarted(t)));
        } else {
            lemma_started_now(p.units, data, p.owned, p.building, t);
            assert(events_at(ticks, data, i - 1).contains(Event::ConstructionStarted(t)));
        }
    }
}

/// No structure is told finished out of nothing: where an observation tells
/// that construction of a structure finished, an earlier observation told
/// that it started, or the structure was not owned before and so appeared
/// complete.
pub proof fn lemma_complete_follows_start(ticks: Seq<Tick>, data: &GameData, i: int, t: u64)
    requires
        is_history(ticks, data),
        0 <= i < ticks.len(),
        events_at(ticks, data, i).contains(Event::ConstructionComplete(t)),
    ensures
        !ticks[i].owned.contains(t) || exists|j: int|
            0 <= j < i && (#[trigger] events_at(ticks, data, j)).contains(Event::ConstructionStarted(t)),
{
    lemma_complete_cause(ticks[i].units, data, ticks[i].owned, ticks[i].building, t);
    if ticks[i].owned.contains(t) {
        lemma_building_was_started(ticks, data, i, t);
    }
}

} // verus!
