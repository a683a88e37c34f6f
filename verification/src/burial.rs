//! What the bot forgets when a unit dies.
//!
//! The game tells the tags of the units that died. Whose a dead unit was
//! follows from where the bot knew its tag: among its own units, among what
//! it remembers of the opponent, or among the mineral fields of a base.
use vstd::prelude::*;
use crate::expansion::Expansion;
use crate::game_state::{Alliance, Event};
use crate::tags::{without, TagMap, TagSet};
use crate::units::{has_tag, removed, PlayerUnits, PlayerView};

verus! {

/// Where the bot knows the tags of units.
pub struct Known {
    /// Tags of the bot's own units.
    pub owned: Set<u64>,
    /// Tags of the bot's structures under construction.
    pub building: Set<u64>,
    /// Step of the game until which each unit is left alone.
    pub frames: Map<u64, u32>,
    /// Hits of each unit at the observation before.
    pub hits: Map<u64, u32>,
    /// Step of the game at which each unit was first seen.
    pub seen: Map<u64, u32>,
    /// Tags of the opponent's hallucinations.
    pub saved: Set<u64>,
    /// What is remembered of the opponent.
    pub cached: PlayerView,
    /// The mineral fields of each base.
    pub minerals: Seq<Seq<u64>>,
}

/// Whether the bot remembers the tag of a unit of the opponent. Structures
/// and main buildings are looked at for a terran opponent only.
pub open spec fn is_enemy_tag(k: Known, tag: u64, terran: bool) -> bool {
    k.saved.contains(tag) || has_tag(k.cached.all, tag) || has_tag(k.cached.units, tag) || has_tag(
        k.cached.workers,
        tag,
    ) || (terran && (has_tag(k.cached.structures, tag) || has_tag(k.cached.townhalls, tag)))
}

/// Whether the base at place `i` is the first that has the mineral field.
pub open spec fn is_first_with(minerals: Seq<Seq<u64>>, tag: u64, i: int) -> bool {
    0 <= i < minerals.len() && minerals[i].contains(tag) && forall|j: int|
        0 <= j < i ==> !(#[trigger] minerals[j]).contains(tag)
}

/// Whose the dead unit with the tag was: the bot's if the bot owned it, else
/// the opponent's if the bot remembers it so, else nobody's if it is a
/// mineral field of a base. Else the bot did not know the unit.
pub open spec fn fate(k: Known, tag: u64, terran: bool) -> Option<Alliance> {
    if k.owned.contains(tag) {
        Some(Alliance::Own)
    } else if is_enemy_tag(k, tag, terran) {
        Some(Alliance::Enemy)
    } else if exists|i: int| is_first_with(k.minerals, tag, i) {
        Some(Alliance::Neutral)
    } else {
        None
    }
}

/// What the bot knows after it took in the death of the unit with the tag:
/// the tag is dropped where it decided whose the unit was.
pub open spec fn forgotten(k: Known, tag: u64, terran: bool) -> Known {
    if k.owned.contains(tag) {
        Known {
            owned: k.owned.remove(tag),
            building: k.building.remove(tag),
            frames: k.frames.remove(tag),
            hits: k.hits.remove(tag),
            seen: k.seen.remove(tag),
            ..k
        }
    } else {
        let cached = PlayerView {
            all: removed(k.cached.all, tag),
            units: removed(k.cached.units, tag),
            workers: removed(k.cached.workers, tag),
            structures: if terran {
                removed(k.cached.structures, tag)
            } else {
                k.cached.structures
            },
            townhalls: if terran {
                removed(k.cached.townhalls, tag)
            } else {
                k.cached.townhalls
            },
            ..k.cached
        };
        if is_enemy_tag(k, tag, terran) {
            Known { saved: k.saved.remove(tag), cached, ..k }
        } else if exists|i: int| is_first_with(k.minerals, tag, i) {
            let i = choose|i: int| is_first_with(k.minerals, tag, i);
            Known {
                saved: k.saved.remove(tag),
                cached,
                minerals: k.minerals.update(i, without(k.minerals[i], tag)),
                ..k
            }
        } else {
            Known { saved: k.saved.remove(tag), cached, ..k }
        }
    }
}

/// The events that the deaths of the units with the given tags give rise
/// to, in their order. A death of a unit that the bot did not know gives
/// rise to none.
pub open spec fn death_events(dead: Seq<u64>, k: Known, terran: bool) -> Seq<Event>
    decreases dead.len(),
{
    if dead.len() == 0 {
        Seq::empty()
    } else {
        let rest = death_events(dead.skip(1), forgotten(k, dead[0], terran), terran);
        match fate(k, dead[0], terran) {
            Some(a) => seq![Event::UnitDestroyed(dead[0], Some(a))] + rest,
            None => rest,
        }
    }
}

/// What the bot knows after it took in the deaths of the units with the
/// given tags.
pub open spec fn after_deaths(dead: Seq<u64>, k: Known, terran: bool) -> Known
    decreases dead.len(),
{
    if dead.len() == 0 {
        k
    } else {
        after_deaths(dead.skip(1), forgotten(k, dead[0], terran), terran)
    }
}

/// The mineral fields of each base.
pub open spec fn minerals_of_bases(expansions: Seq<Expansion>) -> Seq<Seq<u64>> {
    expansions.map_values(|e: Expansion| e.minerals@)
}

/// Whether every base is one that the functions of this library keep.
pub open spec fn bases_wf(expansions: Seq<Expansion>) -> bool {
    forall|i: int| 0 <= i < expansions.len() ==> (#[trigger] expansions[i]).wf()
}

/// Whether two lists hold the same bases but for their mineral fields.
pub open spec fn same_bases(a: Seq<Expansion>, b: Seq<Expansion>) -> bool {
    &&& a.len() == b.len()
    &&& forall|i: int|
        0 <= i < a.len() ==> {
            &&& (#[trigger] a[i]).loc == b[i].loc
            &&& a[i].center == b[i].center
            &&& a[i].geysers == b[i].geysers
            &&& a[i].alliance == b[i].alliance
            &&& a[i].base == b[i].base
        }
}

/// Takes the mineral field with the tag out of the first base that has it.
/// Tells whether a base had it.
pub fn drop_mineral(expansions: &mut Vec<Expansion>, tag: u64) -> (r: bool)
    requires
        bases_wf(old(expansions)@),
    ensures
        bases_wf(final(expansions)@),
        same_bases(final(expansions)@, old(expansions)@),
        r == exists|i: int| is_first_with(minerals_of_bases(old(expansions)@), tag, i),
        minerals_of_bases(final(expansions)@) == if r {
            let i = choose|i: int| is_first_with(minerals_of_bases(old(expansions)@), tag, i);
            minerals_of_bases(old(expansions)@).update(
                i,
                without(minerals_of_bases(old(expansions)@)[i], tag),
            )
        } else {
            minerals_of_bases(old(expansions)@)
        },
{
    let ghost given = expansions@;
    let ghost m0 = minerals_of_bases(given);
    let mut i: usize = 0;
    while i < expansions.len()
        invariant
            i <= expansions.len(),
            expansions@ == given,
            given == old(expansions)@,
            m0 == minerals_of_bases(given),
            bases_wf(given),
            forall|j: int| 0 <= j < i ==> !(#[trigger] m0[j]).contains(tag),
        decreases expansions.len() - i,
    {
        assert(m0[i as int] == given[i as int].minerals@);
        assert(given[i as int].wf());
        if expansions[i].minerals.contains(tag) {
            expansions[i].minerals.remove(tag);
            proof {
                assert(is_first_with(m0, tag, i as int));
                let c = choose|c: int| is_first_with(m0, tag, c);
                assert(c == i) by {
                    if c < i {
                        assert(!m0[c].contains(tag));
                    } else if i < c {
                        assert(!m0[i as int].contains(tag));
                    }
                }
                assert(minerals_of_bases(expansions@) =~= m0.update(
                    i as int,
                    without(m0[i as int], tag),
                ));
                assert forall|j: int| 0 <= j < expansions@.len() implies (
                #[trigger] expansions@[j]).wf() by {
                    if j != i {
                        assert(expansions@[j] == given[j]);
                        assert(given[j].wf());
                    }
                }
            }
            return true;
        }
        i += 1;
    }
    proof {
        if exists|c: int| is_first_with(m0, tag, c) {
            let c = choose|c: int| is_first_with(m0, tag, c);
            assert(!m0[c].contains(tag));
        }
    }
    false
}

/// Takes in the death of the unit with the tag: tells whose it was and
/// forgets it; see [`fate`] and [`forgotten`].
pub fn bury(
    tag: u64,
    terran: bool,
    owned: &mut TagSet,
    building: &mut TagSet,
    frames: &mut TagMap,
    hits: &mut TagMap,
    seen: &mut TagMap,
    saved: &mut TagSet,
    cached: &mut PlayerUnits,
    expansions: &mut Vec<Expansion>,
) -> (r: Option<Alliance>)
    requires
        old(cached).wf(),
        bases_wf(old(expansions)@),
    ensures
        final(cached).wf(),
        bases_wf(final(expansions)@),
        same_bases(final(expansions)@, old(expansions)@),
        ({
            let k = Known {
                owned: old(owned)@,
                building: old(building)@,
                frames: old(frames)@,
                hits: old(hits)@,
                seen: old(seen)@,
                saved: old(saved)@,
                cached: old(cached)@,
                minerals: minerals_of_bases(old(expansions)@),
            };
            &&& r == fate(k, tag, terran)
            &&& (Known {
                owned: final(owned)@,
                building: final(building)@,
                frames: final(frames)@,
                hits: final(hits)@,
                seen: final(seen)@,
                saved: final(saved)@,
                cached: final(cached)@,
                minerals: minerals_of_bases(final(expansions)@),
            }) == forgotten(k, tag, terran)
        }),
{
    if owned.remove(tag) {
        frames.remove(tag);
        building.remove(tag);
        hits.remove(tag);
        seen.remove(tag);
        return Some(Alliance::Own);
    }
    proof {
        assert(owned@ =~= old(owned)@);
    }
    let mut known = saved.remove(tag);
    if cached.all.remove(tag).is_some() {
        known = true;
    }
    if cached.units.remove(tag).is_some() {
        known = true;
    }
    if cached.workers.remove(tag).is_some() {
        known = true;
    }
    if terran {
        if cached.structures.remove(tag).is_some() {
            known = true;
        }
        if cached.townhalls.remove(tag).is_some() {
            known = true;
        }
    }
    if known {
        Some(Alliance::Enemy)
    } else if drop_mineral(expansions, tag) {
        Some(Alliance::Neutral)
    } else {
        None
    }
}

/// Takes in the deaths of the units with the given tags, in their order:
/// tells an event for each unit that the bot knew, and forgets the units;
/// see [`death_events`] and [`after_deaths`].
pub fn bury_all(
    dead: &Vec<u64>,
    terran: bool,
    owned: &mut TagSet,
    building: &mut TagSet,
    frames: &mut TagMap,
    hits: &mut TagMap,
    seen: &mut TagMap,
    saved: &mut TagSet,
    cached: &mut PlayerUnits,
    expansions: &mut Vec<Expansion>,
) -> (events: Vec<Event>)
    requires
        old(cached).wf(),
        bases_wf(old(expansions)@),
    ensures
        final(cached).wf(),
        bases_wf(final(expansions)@),
        same_bases(final(expansions)@, old(expansions)@),
        ({
            let k = Known {
                owned: old(owned)@,
                building: old(building)@,
                frames: old(frames)@,
                hits: old(hits)@,
                seen: old(seen)@,
                saved: old(saved)@,
                cached: old(cached)@,
                minerals: minerals_of_bases(old(expansions)@),
            };
            &&& events@ == death_events(dead@, k, terran)
            &&& (Known {
                owned: final(owned)@,
                building: final(building)@,
                frames: final(frames)@,
                hits: final(hits)@,
                seen: final(seen)@,
                saved: final(saved)@,
                cached: final(cached)@,
                minerals: minerals_of_bases(final(expansions)@),
            }) == after_deaths(dead@, k, terran)
        }),
{
    let ghost k0 = Known {
        owned: owned@,
        building: building@,
        frames: frames@,
        hits: hits@,
        seen: seen@,
        saved: saved@,
        cached: cached@,
        minerals: minerals_of_bases(expansions@),
    };
    let mut events: Vec<Event> = Vec::new();
    let mut i: usize = 0;
    assert(dead@.skip(0) =~= dead@);
    assert(events@ + death_events(dead@, k0, terran) =~= death_events(dead@, k0, terran));
    while i < dead.len()
        invariant
            i <= dead.len(),
            cached.wf(),
            bases_wf(expansions@),
            same_bases(expansions@, old(expansions)@),
            ({
                let k = Known {
                    owned: owned@,
                    building: building@,
                    frames: frames@,
                    hits: hits@,
                    seen: seen@,
                    saved: saved@,
                    cached: cached@,
                    minerals: minerals_of_bases(expansions@),
                };
                &&& events@ + death_events(dead@.skip(i as int), k, terran) == death_events(
                    dead@,
                    k0,
                    terran,
                )
                &&& after_deaths(dead@.skip(i as int), k, terran) == after_deaths(dead@, k0, terran)
            }),
        decreases dead.len() - i,
    {
        let ghost k = Known {
            owned: owned@,
            building: building@,
            frames: frames@,
            hits: hits@,
            seen: seen@,
            saved: saved@,
            cached: cached@,
            minerals: minerals_of_bases(expansions@),
        };
        let ghost before = events@;
        let ghost rest = dead@.skip(i as int);
        let tag = dead[i];
        proof {
            assert(rest[0] == tag);
            assert(rest.skip(1) =~= dead@.skip(i + 1));
        }
        let r = bury(tag, terran, owned, building, frames, hits, seen, saved, cached, expansions);
        match r {
            Some(a) => {
                events.push(Event::UnitDestroyed(tag, Some(a)));
                proof {
                    let tail = death_events(rest.skip(1), forgotten(k, tag, terran), terran);
                    assert(events@ + tail =~= before + (seq![Event::UnitDestroyed(tag, Some(a))]
                        + tail));
                }
            },
            None => {},
        }
        i += 1;
    }
    proof {
        assert(dead@.skip(dead.len() as int) =~= Seq::<u64>::empty());
        assert(events@ + Seq::<Event>::empty() =~= events@);
    }
    events
}

} // verus!
