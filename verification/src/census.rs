//! Counting the units of both players by type, and the bot's orders by
//! ability.
use vstd::prelude::*;
use crate::action::Target;
use crate::counter::Counter;
use crate::game_data::GameData;
use crate::geometry::Point2;
use crate::ids::{AbilityId, UnitTypeId};
use crate::unit::{Unit, UnitOrder, UnitView};
use crate::units::Units;

verus! {

/// Whether a unit of the bot counts as a complete unit of type `t`: it is
/// complete, of that type and no hallucination.
pub open spec fn is_ready_of(u: UnitView, t: UnitTypeId) -> bool {
    !u.is_hallucination && u.is_ready() && u.type_id == t
}

/// How many of the units are complete units of type `t`.
pub open spec fn ready_count(units: Seq<UnitView>, t: UnitTypeId) -> nat
    decreases units.len(),
{
    if units.len() == 0 {
        0
    } else {
        ready_count(units.drop_last(), t) + if is_ready_of(units.last(), t) {
            1nat
        } else {
            0nat
        }
    }
}

/// How many of the orders use the ability `a`.
pub open spec fn orders_with(orders: Seq<UnitOrder>, a: AbilityId) -> nat
    decreases orders.len(),
{
    if orders.len() == 0 {
        0
    } else {
        orders_with(orders.drop_last(), a) + if orders.last().ability == a {
            1nat
        } else {
            0nat
        }
    }
}

/// How many orders of the units use the ability `a`; hallucinations have no
/// orders that count.
pub open spec fn given_orders(units: Seq<UnitView>, a: AbilityId) -> nat
    decreases units.len(),
{
    if units.len() == 0 {
        0
    } else {
        given_orders(units.drop_last(), a) + if units.last().is_hallucination {
            0nat
        } else {
            orders_with(units.last().orders, a)
        }
    }
}

/// The ability that makes a unit of the type of `u`, where `u` is a unit
/// under construction that counts: not complete and no hallucination.
pub open spec fn rising_with(u: UnitView, data: &GameData) -> Option<AbilityId> {
    if u.is_hallucination || u.is_ready() {
        None
    } else {
        match data.spec_unit(u.type_id) {
            Some(d) => d.ability,
            None => None,
        }
    }
}

/// Whether the rules say that the ability places a building.
pub open spec fn places_building(data: &GameData, a: AbilityId) -> bool {
    match data.spec_ability(a) {
        Some(d) => d.is_building,
        None => false,
    }
}

/// Whether one of the orders is to place a building with `a` at `pos`.
pub open spec fn is_ordered_in(orders: Seq<UnitOrder>, a: AbilityId, pos: Point2) -> bool {
    exists|k: int|
        0 <= k < orders.len() && (#[trigger] orders[k]).ability == a && orders[k].target
            == Target::Pos(pos)
}

/// Whether a unit that counts has the order to place a building with `a` at
/// `pos`.
pub open spec fn is_ordered_at(units: Seq<UnitView>, data: &GameData, a: AbilityId, pos: Point2) -> bool {
    places_building(data, a) && exists|j: int|
        0 <= j < units.len() && !(#[trigger] units[j]).is_hallucination && is_ordered_in(
            units[j].orders,
            a,
            pos,
        )
}

/// Whether an earlier unit than the one at place `i` rises at the same
/// position with the same ability.
pub open spec fn is_repeated(units: Seq<UnitView>, data: &GameData, i: int) -> bool {
    exists|j: int|
        0 <= j < i && rising_with(#[trigger] units[j], data) == rising_with(units[i], data)
            && units[j].position == units[i].position
}

/// Whether the unit at place `i` is a building that rises by itself with the
/// ability `a`: it is under construction, made with `a`, no unit has the
/// order to place it, and no earlier unit stands for the same building.
pub open spec fn rises_alone(units: Seq<UnitView>, data: &GameData, i: int, a: AbilityId) -> bool {
    &&& 0 <= i < units.len()
    &&& rising_with(units[i], data) == Some(a)
    &&& !is_ordered_at(units, data, a, units[i].position)
    &&& !is_repeated(units, data, i)
}

/// How many of the first `n` units rise by themselves with the ability `a`.
pub open spec fn alone_count(units: Seq<UnitView>, data: &GameData, n: int, a: AbilityId) -> nat
    decreases n,
{
    if n <= 0 {
        0
    } else {
        alone_count(units, data, n - 1, a) + if rises_alone(units, data, n - 1, a) {
            1nat
        } else {
            0nat
        }
    }
}

/// How often the ability `a` is in use among the bot's units: once for each
/// order that uses it, and once for each building that rises with it
/// without a unit ordered to place it.
pub open spec fn order_count(units: Seq<UnitView>, data: &GameData, a: AbilityId) -> nat {
    given_orders(units, a) + alone_count(units, data, units.len() as int, a)
}

/// Whether a remembered unit of the opponent counts as complete of type
/// `t`: a complete structure, or a unit that is no hallucination.
pub open spec fn is_enemy_current(u: UnitView, data: &GameData, t: UnitTypeId) -> bool {
    u.type_id == t && if u.is_structure(data) {
        u.is_ready()
    } else {
        !u.is_hallucination
    }
}

/// Whether a remembered unit of the opponent is a structure of type `t`
/// under construction.
pub open spec fn is_enemy_ordered(u: UnitView, data: &GameData, t: UnitTypeId) -> bool {
    u.type_id == t && u.is_structure(data) && !u.is_ready()
}

/// How many of the units count as complete units of the opponent of type `t`.
pub open spec fn enemy_current(units: Seq<UnitView>, data: &GameData, t: UnitTypeId) -> nat
    decreases units.len(),
{
    if units.len() == 0 {
        0
    } else {
        enemy_current(units.drop_last(), data, t) + if is_enemy_current(units.last(), data, t) {
            1nat
        } else {
            0nat
        }
    }
}

/// How many of the units are structures of the opponent of type `t` under
/// construction.
pub open spec fn enemy_ordered(units: Seq<UnitView>, data: &GameData, t: UnitTypeId) -> nat
    decreases units.len(),
{
    if units.len() == 0 {
        0
    } else {
        enemy_ordered(units.drop_last(), data, t) + if is_enemy_ordered(units.last(), data, t) {
            1nat
        } else {
            0nat
        }
    }
}

/// Counts the remembered units of the opponent by type: the complete ones
/// and the structures under construction.
pub fn count_enemies(units: &Units, data: &GameData) -> (r: (Counter<UnitTypeId>, Counter<UnitTypeId>))
    ensures
        forall|t: UnitTypeId| #[trigger] r.0.count(t) == enemy_current(units@, data, t),
        forall|t: UnitTypeId| #[trigger] r.1.count(t) == enemy_ordered(units@, data, t),
{
    let mut current: Counter<UnitTypeId> = Counter::new();
    let mut ordered: Counter<UnitTypeId> = Counter::new();
    let n = units.len();
    let mut i: usize = 0;
    while i < n
        invariant
            i <= n,
            n == units@.len(),
            forall|t: UnitTypeId|
                #[trigger] current.count(t) == enemy_current(units@.take(i as int), data, t),
            forall|t: UnitTypeId|
                #[trigger] ordered.count(t) == enemy_ordered(units@.take(i as int), data, t),
        decreases n - i,
    {
        let ghost seen = units@.take(i as int);
        let ghost next = units@.take(i + 1);
        let ghost c0 = current;
        let ghost o0 = ordered;
        match units.get_index(i) {
            Some(u) => {
                assert(next.drop_last() =~= seen);
                assert(next.last() == u@);
                if u.is_structure(data) {
                    if u.is_ready() {
                        current.add_one(u.type_id);
                    } else {
                        ordered.add_one(u.type_id);
                    }
                } else if !u.is_hallucination {
                    current.add_one(u.type_id);
                }
                assert forall|t: UnitTypeId| #[trigger] current.count(t) == enemy_current(
                    next,
                    data,
                    t,
                ) by {
                    assert(c0.count(t) == enemy_current(seen, data, t));
                }
                assert forall|t: UnitTypeId| #[trigger] ordered.count(t) == enemy_ordered(
                    next,
                    data,
                    t,
                ) by {
                    assert(o0.count(t) == enemy_ordered(seen, data, t));
                }
            },
            None => {},
        }
        i += 1;
    }
    assert(units@.take(n as int) =~= units@);
    (current, ordered)
}

/// Checks if one of the orders is to place a building with `a` at `pos`.
fn has_order_at(orders: &Vec<UnitOrder>, a: AbilityId, pos: Point2) -> (r: bool)
    ensures
        r == is_ordered_in(orders@, a, pos),
{
    let mut k: usize = 0;
    while k < orders.len()
        invariant
            k <= orders.len(),
            forall|j: int|
                0 <= j < k ==> !((#[trigger] orders[j]).ability == a && orders[j].target
                    == Target::Pos(pos)),
        decreases orders.len() - k,
    {
        if orders[k].ability == a && orders[k].target == Target::Pos(pos) {
            return true;
        }
        k += 1;
    }
    false
}

/// The ability with which a unit under construction rises; see
/// [`rising_with`].
fn rising_ability(u: &Unit, data: &GameData) -> (r: Option<AbilityId>)
    ensures
        r == rising_with(u@, data),
{
    if u.is_hallucination || u.is_ready() {
        None
    } else {
        match data.unit(u.type_id) {
            Some(d) => d.ability,
            None => None,
        }
    }
}

/// Checks if the unit at place `i` rises by itself with the ability `a`.
fn check_rises_alone(units: &Units, data: &GameData, i: usize, a: AbilityId, pos: Point2) -> (r: bool)
    requires
        i < units@.len(),
        rising_with(units@[i as int], data) == Some(a),
        units@[i as int].position == pos,
    ensures
        r == rises_alone(units@, data, i as int, a),
{
    let building = match data.ability(a) {
        Some(d) => d.is_building,
        None => false,
    };
    let n = units.len();
    if building {
        let mut j: usize = 0;
        while j < n
            invariant
                j <= n,
                n == units@.len(),
                i < units@.len(),
                units@[i as int].position == pos,
                places_building(data, a),
                forall|x: int|
                    0 <= x < j ==> !(!(#[trigger] units@[x]).is_hallucination && is_ordered_in(
                        units@[x].orders,
                        a,
                        pos,
                    )),
            decreases n - j,
        {
            match units.get_index(j) {
                Some(u) => {
                    if !u.is_hallucination && has_order_at(&u.orders, a, pos) {
                        assert(!units@[j as int].is_hallucination && is_ordered_in(
                            units@[j as int].orders,
                            a,
                            pos,
                        ));
                        assert(is_ordered_at(units@, data, a, pos));
                        return false;
                    }
                },
                None => {},
            }
            j += 1;
        }
    }
    let mut j: usize = 0;
    while j < i
        invariant
            j <= i,
            i < units@.len(),
            rising_with(units@[i as int], data) == Some(a),
            units@[i as int].position == pos,
            forall|x: int|
                0 <= x < j ==> !(rising_with(#[trigger] units@[x], data) == Some(a)
                    && units@[x].position == pos),
        decreases i - j,
    {
        match units.get_index(j) {
            Some(u) => {
                if rising_ability(u, data) == Some(a) && u.position == pos {
                    return false;
                }
            },
            None => {},
        }
        j += 1;
    }
    true
}

/// Counts the bot's complete units by type and its orders by ability; see
/// [`ready_count`] and [`order_count`].
pub fn count_own(units: &Units, data: &GameData) -> (r: (Counter<UnitTypeId>, Counter<AbilityId>))
    ensures
        forall|t: UnitTypeId| #[trigger] r.0.count(t) == ready_count(units@, t),
        forall|a: AbilityId| #[trigger] r.1.count(a) == order_count(units@, data, a),
{
    let mut current: Counter<UnitTypeId> = Counter::new();
    let mut orders: Counter<AbilityId> = Counter::new();
    let n = units.len();
    let mut i: usize = 0;
    while i < n
        invariant
            i <= n,
            n == units@.len(),
            forall|t: UnitTypeId| #[trigger] current.count(t) == ready_count(units@.take(i as int), t),
            forall|a: AbilityId| #[trigger] orders.count(a) == given_orders(units@.take(i as int), a),
        decreases n - i,
    {
        let ghost seen = units@.take(i as int);
        let ghost next = units@.take(i + 1);
        let ghost c0 = current;
        let ghost o0 = orders;
        match units.get_index(i) {
            Some(u) => {
                assert(next.drop_last() =~= seen);
                assert(next.last() == u@);
                if !u.is_hallucination {
                    let mut k: usize = 0;
                    while k < u.orders.len()
                        invariant
                            k <= u.orders.len(),
                            forall|a: AbilityId|
                                #[trigger] orders.count(a) == o0.count(a) + orders_with(
                                    u.orders@.take(k as int),
                                    a,
                                ),
                        decreases u.orders.len() - k,
                    {
                        let ghost o1 = orders;
                        assert(u.orders@.take(k + 1).drop_last() =~= u.orders@.take(k as int));
                        orders.add_one(u.orders[k].ability);
                        assert forall|a: AbilityId| #[trigger] orders.count(a) == o0.count(a)
                            + orders_with(u.orders@.take(k + 1), a) by {
                            assert(o1.count(a) == o0.count(a) + orders_with(
                                u.orders@.take(k as int),
                                a,
                            ));
                        }
                        k += 1;
                    }
                    assert(u.orders@.take(u.orders.len() as int) =~= u.orders@);
                    if u.is_ready() {
                        current.add_one(u.type_id);
                    }
                }
                assert forall|t: UnitTypeId| #[trigger] current.count(t) == ready_count(next, t) by {
                    assert(c0.count(t) == ready_count(seen, t));
                }
                assert forall|a: AbilityId| #[trigger] orders.count(a) == given_orders(next, a) by {
                    assert(o0.count(a) == given_orders(seen, a));
                }
            },
            None => {},
        }
        i += 1;
    }
    assert(units@.take(n as int) =~= units@);
    let mut i: usize = 0;
    while i < n
        invariant
            i <= n,
            n == units@.len(),
            forall|a: AbilityId|
                #[trigger] orders.count(a) == given_orders(units@, a) + alone_count(
                    units@,
                    data,
                    i as int,
                    a,
                ),
        decreases n - i,
    {
        let ghost o0 = orders;
        match units.get_index(i) {
            Some(u) => {
                match rising_ability(u, data) {
                    Some(a) => {
                        if check_rises_alone(units, data, i, a, u.position) {
                            orders.add_one(a);
                        }
                    },
                    None => {},
                }
                assert forall|a: AbilityId| #[trigger] orders.count(a) == given_orders(units@, a)
                    + alone_count(units@, data, i + 1, a) by {
                    assert(o0.count(a) == given_orders(units@, a) + alone_count(
                        units@,
                        data,
                        i as int,
                        a,
                    ));
                }
            },
            None => {},
        }
        i += 1;
    }
    (current, orders)
}

} // verus!
