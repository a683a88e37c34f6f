//! How fast a unit moves, with buffs, upgrades and creep counted in.
use vstd::prelude::*;
use crate::bot::{contains_upgrade, has_upgrade_in, FRAMES_PER_SECOND_X10};
use crate::game_data::{GameData, Ratio, SpeedUpgrade};
use crate::geometry::{cell_of, quotient, Grid, SCALE};
use crate::ids::{BuffId, UnitTypeId, UpgradeId};
use crate::unit::{Unit, UnitView};
use crate::weapons::clamp_i32;

verus! {

/// A speed multiplied by a ratio, rounded down and kept within the range of
/// `i32`. A ratio over nothing changes nothing.
pub open spec fn scaled(speed: i32, r: Ratio) -> i32 {
    if r.den == 0 {
        speed
    } else {
        clamp_i32(speed * r.num / (r.den as int))
    }
}

/// By how much a medivac's boost multiplies its speed.
pub open spec fn medivac_boost() -> Ratio {
    Ratio { num: 17, den: 10 }
}

/// By how much a void ray that aligns its prisms is slowed down.
pub open spec fn void_ray_slow() -> Ratio {
    Ratio { num: 3, den: 4 }
}

/// What the first entry of the list for the buff gives.
pub open spec fn buff_ratio(list: Seq<(BuffId, Ratio)>, buff: BuffId) -> Option<Ratio>
    decreases list.len(),
{
    if list.len() == 0 {
        None
    } else if list[0].0 == buff {
        Some(list[0].1)
    } else {
        buff_ratio(list.skip(1), buff)
    }
}

/// What the first entry of the list for the type gives.
pub open spec fn type_ratio(list: Seq<(UnitTypeId, Ratio)>, t: UnitTypeId) -> Option<Ratio>
    decreases list.len(),
{
    if list.len() == 0 {
        None
    } else if list[0].0 == t {
        Some(list[0].1)
    } else {
        type_ratio(list.skip(1), t)
    }
}

/// The first entry of the list for the type.
pub open spec fn speed_upgrade(list: Seq<SpeedUpgrade>, t: UnitTypeId) -> Option<SpeedUpgrade>
    decreases list.len(),
{
    if list.len() == 0 {
        None
    } else if list[0].unit == t {
        Some(list[0])
    } else {
        speed_upgrade(list.skip(1), t)
    }
}

/// The speed after the buffs, taken in their order, and whether it is
/// final: the boost of a medivac and the slowing of a void ray end the
/// count, and nothing after them applies.
pub open spec fn buffed(speed: i32, buffs: Seq<BuffId>, data: &GameData) -> (i32, bool)
    decreases buffs.len(),
{
    if buffs.len() == 0 {
        (speed, false)
    } else if buffs[0] == BuffId::MedivacSpeedBoost {
        (scaled(speed, medivac_boost()), true)
    } else if buffs[0] == BuffId::VoidRaySwarmDamageBoost {
        (scaled(speed, void_ray_slow()), true)
    } else {
        let next = match buff_ratio(data.speed_buffs@, buffs[0]) {
            Some(r) => scaled(speed, r),
            None => speed,
        };
        buffed(next, buffs.skip(1), data)
    }
}

/// The speed with what the list says of the type, where the owner has the
/// upgrade that the list names.
pub open spec fn upgraded(speed: i32, list: Seq<SpeedUpgrade>, t: UnitTypeId, upgrades: Seq<UpgradeId>) -> i32 {
    match speed_upgrade(list, t) {
        Some(e) => if has_upgrade_in(upgrades, e.upgrade) {
            scaled(speed, e.increase)
        } else {
            speed
        },
        None => speed,
    }
}

/// Speed of the unit with buffs and upgrades, on plain ground; in 4096ths
/// per second. An ultralisk is not touched by buffs.
pub open spec fn base_speed(u: UnitView, upgrades: Seq<UpgradeId>, data: &GameData) -> i32 {
    let plain: i32 = match data.spec_unit(u.type_id) {
        Some(d) => d.movement_speed,
        None => 0,
    };
    let (speed, done) = if u.type_id == UnitTypeId::Ultralisk {
        (plain, false)
    } else {
        buffed(plain, u.buffs, data)
    };
    if done {
        speed
    } else {
        upgraded(speed, data.speed_upgrades@, u.type_id, upgrades)
    }
}

/// Speed of the unit on creep.
pub open spec fn creep_speed(u: UnitView, upgrades: Seq<UpgradeId>, data: &GameData) -> i32 {
    let base = upgraded(
        base_speed(u, upgrades, data),
        data.on_creep_speed_upgrades@,
        u.type_id,
        upgrades,
    );
    match type_ratio(data.speed_on_creep@, u.type_id) {
        Some(r) => scaled(base, r),
        None => base,
    }
}

/// Speed of the unit off creep.
pub open spec fn ground_speed(u: UnitView, upgrades: Seq<UpgradeId>, data: &GameData) -> i32 {
    upgraded(base_speed(u, upgrades, data), data.off_creep_speed_upgrades@, u.type_id, upgrades)
}

/// Whether the cell of the unit is covered with creep.
pub open spec fn on_creep(u: UnitView, creep: &Grid<bool>) -> bool {
    creep.at(cell_of(u.position.x as int), cell_of(u.position.y as int)) == Some(true)
}

/// Speed of the unit where it stands.
pub open spec fn speed_here(u: UnitView, upgrades: Seq<UpgradeId>, creep: &Grid<bool>, data: &GameData) -> i32 {
    if on_creep(u, creep) {
        creep_speed(u, upgrades, data)
    } else {
        ground_speed(u, upgrades, data)
    }
}

/// A speed multiplied by a ratio; see [`scaled`].
pub fn scale(speed: i32, r: Ratio) -> (s: i32)
    ensures
        s == scaled(speed, r),
{
    if r.den == 0 {
        return speed;
    }
    assert(-0x8000_0000 * 0xffff_ffff <= speed * r.num <= 0x8000_0000 * 0xffff_ffff)
        by (nonlinear_arith)
        requires
            -0x8000_0000 <= speed <= 0x8000_0000,
            0 <= r.num <= 0xffff_ffff,
    ;
    let p: i128 = (speed as i128) * (r.num as i128);
    let q = quotient(p, r.den as i128);
    if q > i32::MAX as i128 {
        i32::MAX
    } else if q < i32::MIN as i128 {
        i32::MIN
    } else {
        q as i32
    }
}

fn find_buff_ratio(list: &Vec<(BuffId, Ratio)>, buff: BuffId) -> (r: Option<Ratio>)
    ensures
        r == buff_ratio(list@, buff),
{
    let mut i: usize = 0;
    assert(list@.skip(0) =~= list@);
    while i < list.len()
        invariant
            i <= list.len(),
            buff_ratio(list@, buff) == buff_ratio(list@.skip(i as int), buff),
        decreases list.len() - i,
    {
        assert(list@.skip(i as int)[0] == list@[i as int]);
        assert(list@.skip(i as int).skip(1) =~= list@.skip(i + 1));
        if list[i].0 == buff {
            return Some(list[i].1);
        }
        i += 1;
    }
    None
}

fn find_type_ratio(list: &Vec<(UnitTypeId, Ratio)>, t: UnitTypeId) -> (r: Option<Ratio>)
    ensures
        r == type_ratio(list@, t),
{
    let mut i: usize = 0;
    assert(list@.skip(0) =~= list@);
    while i < list.len()
        invariant
            i <= list.len(),
            type_ratio(list@, t) == type_ratio(list@.skip(i as int), t),
        decreases list.len() - i,
    {
        assert(list@.skip(i as int)[0] == list@[i as int]);
        assert(list@.skip(i as int).skip(1) =~= list@.skip(i + 1));
        if list[i].0 == t {
            return Some(list[i].1);
        }
        i += 1;
    }
    None
}

fn apply_upgrade(speed: i32, list: &Vec<SpeedUpgrade>, t: UnitTypeId, upgrades: &Vec<UpgradeId>) -> (r: i32)
    ensures
        r == upgraded(speed, list@, t, upgrades@),
{
    let mut i: usize = 0;
    assert(list@.skip(0) =~= list@);
    while i < list.len()
        invariant
            i <= list.len(),
            speed_upgrade(list@, t) == speed_upgrade(list@.skip(i as int), t),
        decreases list.len() - i,
    {
        assert(list@.skip(i as int)[0] == list@[i as int]);
        assert(list@.skip(i as int).skip(1) =~= list@.skip(i + 1));
        if list[i].unit == t {
            return if contains_upgrade(upgrades, list[i].upgrade) {
                scale(speed, list[i].increase)
            } else {
                speed
            };
        }
        i += 1;
    }
    speed
}

impl Unit {
    /// Speed of the unit with buffs and upgrades, on plain ground; see
    /// [`base_speed`].
    pub fn base_real_speed(&self, upgrades: &Vec<UpgradeId>, data: &GameData) -> (r: i32)
        ensures
            r == base_speed(self@, upgrades@, data),
    {
        let mut speed = self.speed(data);
        if self.type_id != UnitTypeId::Ultralisk {
            let ghost plain = speed;
            let mut i: usize = 0;
            assert(self.buffs@.skip(0) =~= self.buffs@);
            while i < self.buffs.len()
                invariant
                    i <= self.buffs.len(),
                    self@.type_id != UnitTypeId::Ultralisk,
                    plain == match data.spec_unit(self@.type_id) {
                        Some(d) => d.movement_speed,
                        None => 0,
                    },
                    buffed(plain, self.buffs@, data) == buffed(speed, self.buffs@.skip(i as int), data),
                decreases self.buffs.len() - i,
            {
                assert(self.buffs@.skip(i as int)[0] == self.buffs@[i as int]);
                assert(self.buffs@.skip(i as int).skip(1) =~= self.buffs@.skip(i + 1));
                let b = self.buffs[i];
                if b == BuffId::MedivacSpeedBoost {
                    return scale(speed, Ratio { num: 17, den: 10 });
                } else if b == BuffId::VoidRaySwarmDamageBoost {
                    return scale(speed, Ratio { num: 3, den: 4 });
                } else {
                    match find_buff_ratio(&data.speed_buffs, b) {
                        Some(r) => {
                            speed = scale(speed, r);
                        },
                        None => {},
                    }
                }
                i += 1;
            }
        }
        apply_upgrade(speed, &data.speed_upgrades, self.type_id, upgrades)
    }

    /// Speed of the unit on creep.
    pub fn on_creep_speed(&self, upgrades: &Vec<UpgradeId>, data: &GameData) -> (r: i32)
        ensures
            r == creep_speed(self@, upgrades@, data),
    {
        let base = apply_upgrade(
            self.base_real_speed(upgrades, data),
            &data.on_creep_speed_upgrades,
            self.type_id,
            upgrades,
        );
        match find_type_ratio(&data.speed_on_creep, self.type_id) {
            Some(r) => scale(base, r),
            None => base,
        }
    }

    /// Speed of the unit off creep.
    pub fn off_creep_speed(&self, upgrades: &Vec<UpgradeId>, data: &GameData) -> (r: i32)
        ensures
            r == ground_speed(self@, upgrades@, data),
    {
        apply_upgrade(
            self.base_real_speed(upgrades, data),
            &data.off_creep_speed_upgrades,
            self.type_id,
            upgrades,
        )
    }

    /// Checks if the cell of the unit is covered with creep.
    pub fn is_unit_on_creep(&self, creep: &Grid<bool>) -> (r: bool)
        ensures
            r == on_creep(self@, creep),
    {
        match creep.get(self.position.cell()) {
            Some(b) => b,
            None => false,
        }
    }

    /// Speed of the unit where it stands.
    pub fn real_speed(&self, upgrades: &Vec<UpgradeId>, creep: &Grid<bool>, data: &GameData) -> (r: i32)
        ensures
            r == speed_here(self@, upgrades@, creep, data),
    {
        if self.is_unit_on_creep(creep) {
            self.on_creep_speed(upgrades, data)
        } else {
            self.off_creep_speed(upgrades, data)
        }
    }

    /// How far the unit moves in one step of the bot, which is `game_step`
    /// steps of the game; in 4096ths, rounded down.
    pub fn distance_per_step(
        &self,
        game_step: u32,
        upgrades: &Vec<UpgradeId>,
        creep: &Grid<bool>,
        data: &GameData,
    ) -> (r: i64)
        ensures
            r == speed_here(self@, upgrades@, creep, data) * 10 * game_step / (
            FRAMES_PER_SECOND_X10 as int),
    {
        let speed = self.real_speed(upgrades, creep, data) as i128;
        assert(-0x8000_0000 * 0xffff_ffff <= speed * game_step <= 0x8000_0000 * 0xffff_ffff)
            by (nonlinear_arith)
            requires
                -0x8000_0000 <= speed <= 0x8000_0000,
                0 <= game_step <= 0xffff_ffff,
        ;
        assert(speed * 10 * game_step == speed * game_step * 10) by (nonlinear_arith);
        let p: i128 = speed * (game_step as i128) * 10;
        let q = quotient(p, FRAMES_PER_SECOND_X10 as i128);
        proof {
            assert(-0x8000_0000 * 0xffff_ffff * 10 <= p / 224 <= 0x8000_0000 * 0xffff_ffff * 10)
                by (nonlinear_arith)
                requires
                    -0x8000_0000 * 0xffff_ffff * 10 <= p <= 0x8000_0000 * 0xffff_ffff * 10,
            ;
        }
        q as i64
    }

    /// How far the unit moves until its weapon can fire again; in 4096ths,
    /// rounded down. A unit whose weapon is not known to wait moves nowhere.
    pub fn distance_to_weapon_ready(
        &self,
        upgrades: &Vec<UpgradeId>,
        creep: &Grid<bool>,
        data: &GameData,
    ) -> (r: i64)
        ensures
            r == match self@.weapon_cooldown {
                Some(c) => speed_here(self@, upgrades@, creep, data) * 10 * c / (
                FRAMES_PER_SECOND_X10 * SCALE),
                None => 0,
            },
    {
        match self.weapon_cooldown {
            Some(c) => {
                let speed = self.real_speed(upgrades, creep, data) as i128;
                assert(-0x8000_0000 * 0x8000_0000 <= speed * c <= 0x8000_0000 * 0x8000_0000)
                    by (nonlinear_arith)
                    requires
                        -0x8000_0000 <= speed <= 0x8000_0000,
                        -0x8000_0000 <= c <= 0x8000_0000,
                ;
                assert(speed * 10 * c == speed * c * 10) by (nonlinear_arith);
                let p: i128 = speed * (c as i128) * 10;
                let q = quotient(p, (FRAMES_PER_SECOND_X10 as i128) * (SCALE as i128));
                proof {
                    assert(-0x8000_0000 * 0x8000_0000 * 10 <= p / 917504 <= 0x8000_0000
                        * 0x8000_0000 * 10) by (nonlinear_arith)
                        requires
                            -0x8000_0000 * 0x8000_0000 * 10 <= p <= 0x8000_0000 * 0x8000_0000
                                * 10,
                    ;
                }
                q as i64
            },
            None => 0,
        }
    }
}

} // verus!
