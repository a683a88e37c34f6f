//! Sorting the units of an observation into groups.
//!
//! Whose a unit is and what type it has decide the groups it belongs to. A
//! unit can belong to several: a command center of the bot is among its
//! units, its structures and its main buildings.
use vstd::prelude::*;
use crate::game_data::{contains_type, has_type, GameData};
use crate::game_state::Alliance;
use crate::ids::UnitTypeId;
use crate::unit::{DisplayType, Unit, UnitView};
use crate::units::{
    distinct_tags, has_tag, lemma_filter_tags, lemma_kept_is_filter, tag_at, tag_set, AllUnits,
    PlayerUnits, PlayerView, Units,
};

verus! {

/// Group of a player's units.
#[derive(Debug, Clone, Copy, PartialEq, Eq, Structural)]
pub enum PlayerGroup {
    /// All units of the player.
    All,
    /// Units that are no structures.
    Units,
    /// Structures. Of the bot's own structures those that have begun.
    Structures,
    /// Main buildings.
    Townhalls,
    /// Workers.
    Workers,
    /// Buildings that harvest a geyser.
    GasBuildings,
    /// Larvae.
    Larvas,
    /// Buildings of the bot whose construction was ordered and has not begun.
    Placeholders,
}

/// Group of units that belong to nobody.
#[derive(Debug, Clone, Copy, PartialEq, Eq, Structural)]
pub enum NeutralGroup {
    /// Mineral fields.
    MineralFields,
    /// Vespene geysers.
    VespeneGeysers,
    /// Mineral fields and vespene geysers.
    Resources,
    /// Rocks and everything else.
    Destructables,
    /// Watchtowers.
    Watchtowers,
    /// Zones that slow units down.
    InhibitorZones,
}

/// Whether a unit of the player with the alliance `side` belongs to `group`.
/// Only the bot has placeholders: what the opponent builds is a structure
/// from the start.
pub open spec fn in_player_group(
    u: UnitView,
    data: &GameData,
    side: Alliance,
    group: PlayerGroup,
) -> bool {
    let standing = u.is_structure(data) && !(side == Alliance::Own && u.display_type
        == DisplayType::Placeholder);
    u.alliance == side && match group {
        PlayerGroup::All => true,
        PlayerGroup::Units => !u.is_structure(data),
        PlayerGroup::Structures => standing,
        PlayerGroup::Townhalls => standing && u.type_id.spec_is_townhall(),
        PlayerGroup::Workers => !u.is_structure(data) && u.type_id.spec_is_worker(),
        PlayerGroup::GasBuildings => standing && u.type_id.spec_is_gas_building(),
        PlayerGroup::Larvas => !u.is_structure(data) && u.type_id == UnitTypeId::Larva,
        PlayerGroup::Placeholders => side == Alliance::Own && u.is_structure(data)
            && u.display_type == DisplayType::Placeholder,
    }
}

/// Whether a unit belongs to nobody and to `group`.
pub open spec fn in_neutral_group(u: UnitView, data: &GameData, group: NeutralGroup) -> bool {
    let t = u.type_id;
    u.alliance == Alliance::Neutral && match group {
        NeutralGroup::Watchtowers => t == UnitTypeId::XelNagaTower,
        NeutralGroup::MineralFields => t.spec_is_mineral_field(),
        NeutralGroup::VespeneGeysers => t.spec_is_vespene_geyser(),
        NeutralGroup::Resources => t.spec_is_mineral_field() || t.spec_is_vespene_geyser(),
        NeutralGroup::InhibitorZones => t != UnitTypeId::XelNagaTower && !t.spec_is_mineral_field()
            && !t.spec_is_vespene_geyser() && has_type(data.inhibitor_ids@, t),
        NeutralGroup::Destructables => t != UnitTypeId::XelNagaTower && !t.spec_is_mineral_field()
            && !t.spec_is_vespene_geyser() && !has_type(data.inhibitor_ids@, t),
    }
}

/// Checks if a unit of the player with the alliance `side` belongs to `group`.
pub fn belongs_to_player(u: &Unit, data: &GameData, side: Alliance, group: PlayerGroup) -> (r: bool)
    ensures
        r == in_player_group(u@, data, side, group),
{
    if u.alliance != side {
        return false;
    }
    let structure = u.is_structure(data);
    let standing = structure && !(side == Alliance::Own && u.is_placeholder());
    match group {
        PlayerGroup::All => true,
        PlayerGroup::Units => !structure,
        PlayerGroup::Structures => standing,
        PlayerGroup::Townhalls => standing && u.type_id.is_townhall(),
        PlayerGroup::Workers => !structure && u.type_id.is_worker(),
        PlayerGroup::GasBuildings => standing && u.type_id.is_gas_building(),
        PlayerGroup::Larvas => !structure && u.type_id == UnitTypeId::Larva,
        PlayerGroup::Placeholders => side == Alliance::Own && structure && u.is_placeholder(),
    }
}

/// Checks if a unit belongs to nobody and to `group`.
pub fn belongs_to_neutral(u: &Unit, data: &GameData, group: NeutralGroup) -> (r: bool)
    ensures
        r == in_neutral_group(u@, data, group),
{
    if u.alliance != Alliance::Neutral {
        return false;
    }
    let t = u.type_id;
    let tower = t == UnitTypeId::XelNagaTower;
    let mineral = t.is_mineral_field();
    let geyser = t.is_vespene_geyser();
    match group {
        NeutralGroup::Watchtowers => tower,
        NeutralGroup::MineralFields => mineral,
        NeutralGroup::VespeneGeysers => geyser,
        NeutralGroup::Resources => mineral || geyser,
        NeutralGroup::InhibitorZones => !tower && !mineral && !geyser && contains_type(
            &data.inhibitor_ids,
            t,
        ),
        NeutralGroup::Destructables => !tower && !mineral && !geyser && !contains_type(
            &data.inhibitor_ids,
            t,
        ),
    }
}

/// The units of `all` that belong to a group of a player, in their order.
pub fn pick_player(all: &Units, data: &GameData, side: Alliance, group: PlayerGroup) -> (r: Units)
    requires
        all.wf(),
    ensures
        r.wf(),
        r@ == all@.filter(|u: UnitView| in_player_group(u, data, side, group)),
{
    let mut keep: Vec<bool> = Vec::new();
    let n = all.len();
    let mut i: usize = 0;
    while i < n
        invariant
            i <= n,
            n == all@.len(),
            keep.len() == i,
            forall|j: int| 0 <= j < i ==> keep[j] == in_player_group(all@[j], data, side, group),
        decreases n - i,
    {
        match all.get_index(i) {
            Some(u) => {
                keep.push(belongs_to_player(u, data, side, group));
            },
            None => {},
        }
        i += 1;
    }
    proof {
        lemma_kept_is_filter(all@, keep@, |u: UnitView| in_player_group(u, data, side, group));
    }
    all.select(&keep)
}

/// The units of `all` that belong to nobody and to a group, in their order.
pub fn pick_neutral(all: &Units, data: &GameData, group: NeutralGroup) -> (r: Units)
    requires
        all.wf(),
    ensures
        r.wf(),
        r@ == all@.filter(|u: UnitView| in_neutral_group(u, data, group)),
{
    let mut keep: Vec<bool> = Vec::new();
    let n = all.len();
    let mut i: usize = 0;
    while i < n
        invariant
            i <= n,
            n == all@.len(),
            keep.len() == i,
            forall|j: int| 0 <= j < i ==> keep[j] == in_neutral_group(all@[j], data, group),
        decreases n - i,
    {
        match all.get_index(i) {
            Some(u) => {
                keep.push(belongs_to_neutral(u, data, group));
            },
            None => {},
        }
        i += 1;
    }
    proof {
        lemma_kept_is_filter(all@, keep@, |u: UnitView| in_neutral_group(u, data, group));
    }
    all.select(&keep)
}

/// The groups of the player with the alliance `side`, filled from `all`:
/// each group holds the units of `all` that belong to it, in their order.
pub open spec fn player_groups(all: Seq<UnitView>, data: &GameData, side: Alliance) -> PlayerView {
    PlayerView {
        all: all.filter(|u: UnitView| in_player_group(u, data, side, PlayerGroup::All)),
        units: all.filter(|u: UnitView| in_player_group(u, data, side, PlayerGroup::Units)),
        structures: all.filter(
            |u: UnitView| in_player_group(u, data, side, PlayerGroup::Structures),
        ),
        townhalls: all.filter(|u: UnitView| in_player_group(u, data, side, PlayerGroup::Townhalls)),
        workers: all.filter(|u: UnitView| in_player_group(u, data, side, PlayerGroup::Workers)),
        gas_buildings: all.filter(
            |u: UnitView| in_player_group(u, data, side, PlayerGroup::GasBuildings),
        ),
        larvas: all.filter(|u: UnitView| in_player_group(u, data, side, PlayerGroup::Larvas)),
        placeholders: all.filter(
            |u: UnitView| in_player_group(u, data, side, PlayerGroup::Placeholders),
        ),
    }
}

/// Whether the groups of a player hold the units of `all` that belong there.
pub open spec fn player_sorted(p: &PlayerUnits, all: Seq<UnitView>, data: &GameData, side: Alliance) -> bool {
    p@ == player_groups(all, data, side)
}

/// Whether every group but what is remembered of the opponent holds the
/// units of `all` that belong there, in the order of `all`.
pub open spec fn sorted(units: &AllUnits, data: &GameData) -> bool {
    let all = units.all@;
    &&& player_sorted(&units.my, all, data, Alliance::Own)
    &&& player_sorted(&units.enemy, all, data, Alliance::Enemy)
    &&& units.mineral_fields@ == all.filter(
        |u: UnitView| in_neutral_group(u, data, NeutralGroup::MineralFields),
    )
    &&& units.vespene_geysers@ == all.filter(
        |u: UnitView| in_neutral_group(u, data, NeutralGroup::VespeneGeysers),
    )
    &&& units.resources@ == all.filter(
        |u: UnitView| in_neutral_group(u, data, NeutralGroup::Resources),
    )
    &&& units.destructables@ == all.filter(
        |u: UnitView| in_neutral_group(u, data, NeutralGroup::Destructables),
    )
    &&& units.watchtowers@ == all.filter(
        |u: UnitView| in_neutral_group(u, data, NeutralGroup::Watchtowers),
    )
    &&& units.inhibitor_zones@ == all.filter(
        |u: UnitView| in_neutral_group(u, data, NeutralGroup::InhibitorZones),
    )
}

/// The groups of one player, filled from `all`.
pub fn sort_player(all: &Units, data: &GameData, side: Alliance) -> (p: PlayerUnits)
    requires
        all.wf(),
    ensures
        p.wf(),
        player_sorted(&p, all@, data, side),
{
    PlayerUnits {
        all: pick_player(all, data, side, PlayerGroup::All),
        units: pick_player(all, data, side, PlayerGroup::Units),
        structures: pick_player(all, data, side, PlayerGroup::Structures),
        townhalls: pick_player(all, data, side, PlayerGroup::Townhalls),
        workers: pick_player(all, data, side, PlayerGroup::Workers),
        gas_buildings: pick_player(all, data, side, PlayerGroup::GasBuildings),
        larvas: pick_player(all, data, side, PlayerGroup::Larvas),
        placeholders: pick_player(all, data, side, PlayerGroup::Placeholders),
    }
}

/// Sorts the units of an observation into groups. `cached`, what is
/// remembered of the opponent, is carried over as it is.
pub fn classify(all: Units, cached: PlayerUnits, data: &GameData) -> (units: AllUnits)
    requires
        all.wf(),
        cached.wf(),
    ensures
        units.wf(),
        units.all@ == all@,
        units.cached == cached,
        sorted(&units, data),
{
    let my = sort_player(&all, data, Alliance::Own);
    let enemy = sort_player(&all, data, Alliance::Enemy);
    let mineral_fields = pick_neutral(&all, data, NeutralGroup::MineralFields);
    let vespene_geysers = pick_neutral(&all, data, NeutralGroup::VespeneGeysers);
    let resources = pick_neutral(&all, data, NeutralGroup::Resources);
    let destructables = pick_neutral(&all, data, NeutralGroup::Destructables);
    let watchtowers = pick_neutral(&all, data, NeutralGroup::Watchtowers);
    let inhibitor_zones = pick_neutral(&all, data, NeutralGroup::InhibitorZones);
    AllUnits {
        all,
        my,
        enemy,
        cached,
        mineral_fields,
        vespene_geysers,
        resources,
        destructables,
        watchtowers,
        inhibitor_zones,
    }
}

/// No unit stands in a group of a player without standing among all units of
/// that player: the tags of all the player's units are the tags of the units
/// that are no structures, of the structures and of the placeholders
/// together, and every other group lies inside one of these.
pub proof fn lemma_player_groups(p: &PlayerUnits, all: Seq<UnitView>, data: &GameData, side: Alliance)
    requires
        player_sorted(p, all, data, side),
        distinct_tags(all),
    ensures
        tag_set(p.all@) == tag_set(p.units@).union(tag_set(p.structures@)).union(
            tag_set(p.placeholders@),
        ),
        tag_set(p.townhalls@).subset_of(tag_set(p.structures@)),
        tag_set(p.gas_buildings@).subset_of(tag_set(p.structures@)),
        tag_set(p.workers@).subset_of(tag_set(p.units@)),
        tag_set(p.larvas@).subset_of(tag_set(p.units@)),
        tag_set(p.units@).disjoint(tag_set(p.structures@)),
        tag_set(p.all@).subset_of(tag_set(all)),
{
    lemma_filter_tags(all, |u: UnitView| in_player_group(u, data, side, PlayerGroup::All));
    lemma_filter_tags(all, |u: UnitView| in_player_group(u, data, side, PlayerGroup::Units));
    lemma_filter_tags(all, |u: UnitView| in_player_group(u, data, side, PlayerGroup::Structures));
    lemma_filter_tags(all, |u: UnitView| in_player_group(u, data, side, PlayerGroup::Townhalls));
    lemma_filter_tags(all, |u: UnitView| in_player_group(u, data, side, PlayerGroup::Workers));
    lemma_filter_tags(all, |u: UnitView| in_player_group(u, data, side, PlayerGroup::GasBuildings));
    lemma_filter_tags(all, |u: UnitView| in_player_group(u, data, side, PlayerGroup::Larvas));
    lemma_filter_tags(all, |u: UnitView| in_player_group(u, data, side, PlayerGroup::Placeholders));
    assert forall|t: u64, i: int, j: int| tag_at(all, t, i) && tag_at(all, t, j) implies i == j by {
        if i < j {
            assert(all[i].tag != all[j].tag);
        } else if j < i {
            assert(all[j].tag != all[i].tag);
        }
    }
    let whole = tag_set(p.units@).union(tag_set(p.structures@)).union(tag_set(p.placeholders@));
    assert forall|t: u64| tag_set(p.all@).contains(t) == whole.contains(t) by {
        if has_tag(p.all@, t) {
            let i = choose|i: int|
                tag_at(all, t, i) && in_player_group(all[i], data, side, PlayerGroup::All);
            assert(in_player_group(all[i], data, side, PlayerGroup::Units) || in_player_group(
                all[i],
                data,
                side,
                PlayerGroup::Structures,
            ) || in_player_group(all[i], data, side, PlayerGroup::Placeholders));
        }
    }
    assert(tag_set(p.all@) =~= whole);
}

} // verus!
