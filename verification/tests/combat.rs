use sc2_core::action::Target;
use sc2_core::game_data::{
    AbilityData, Attribute, GameData, Ratio, SpeedUpgrade, TargetType, UnitTypeData,
    UpgradeBonus, Weapon,
};
use sc2_core::game_state::{Alliance, Race};
use sc2_core::geometry::{Grid, Point2, SCALE};
use sc2_core::ids::{AbilityId, BuffId, UnitTypeId, UpgradeId};
use sc2_core::motion::scale;
use sc2_core::tags::TagSet;
use sc2_core::unit::{Unit, UnitOrder};
use sc2_core::tactics::dps_of;
use sc2_core::weapons::{
    attack_damage_of, protection_of, volley_on, CalcTarget, Protection, WeaponStats,
};

fn weapon(target: TargetType, damage: u32, range: i32, speed: i32) -> Weapon {
    Weapon::new(target, damage, range * SCALE, speed)
}

fn rules() -> GameData {
    let mut data = GameData::new();
    let mut marine = UnitTypeData::new(UnitTypeId::Marine, Race::Terran);
    marine.attributes = vec![Attribute::Light, Attribute::Biological];
    marine.weapons = vec![weapon(TargetType::Any, 6, 5, 2500)];
    marine.movement_speed = 3 * SCALE;
    data.units.push(marine);
    let mut marauder = UnitTypeData::new(UnitTypeId::Other(51), Race::Terran);
    marauder.attributes = vec![Attribute::Armored, Attribute::Biological];
    marauder.armor = 1;
    let mut punisher = weapon(TargetType::Ground, 10, 6, 4000);
    punisher.damage_bonus = vec![(Attribute::Armored, 10)];
    marauder.weapons = vec![punisher];
    data.units.push(marauder);
    let mut zealot = UnitTypeData::new(UnitTypeId::Other(73), Race::Protoss);
    zealot.attributes = vec![Attribute::Light, Attribute::Biological];
    zealot.armor = 1;
    let mut blades = weapon(TargetType::Ground, 8, 0, 3500);
    blades.attacks = 2;
    zealot.weapons = vec![blades];
    data.units.push(zealot);
    let mut thor = UnitTypeData::new(UnitTypeId::Other(52), Race::Terran);
    thor.attributes = vec![Attribute::Armored, Attribute::Mechanical, Attribute::Massive];
    thor.weapons = vec![weapon(TargetType::Ground, 30, 7, 3700), weapon(TargetType::Air, 25, 10, 8800)];
    data.units.push(thor);
    let mut hydra = UnitTypeData::new(UnitTypeId::Hydralisk, Race::Zerg);
    hydra.weapons = vec![weapon(TargetType::Any, 12, 5, 2400)];
    data.units.push(hydra);
    let mut hellion = UnitTypeData::new(UnitTypeId::Hellion, Race::Terran);
    let mut flames = weapon(TargetType::Ground, 8, 5, 7000);
    flames.damage_bonus = vec![(Attribute::Light, 6)];
    hellion.weapons = vec![flames];
    data.units.push(hellion);
    let mut oracle = UnitTypeData::new(UnitTypeId::Oracle, Race::Protoss);
    oracle.weapons = vec![weapon(TargetType::Ground, 15, 4, 2400)];
    data.units.push(oracle);
    let mut colossus = UnitTypeData::new(UnitTypeId::Colossus, Race::Protoss);
    colossus.weapons = vec![weapon(TargetType::Ground, 10, 7, 4000)];
    data.units.push(colossus);
    let mut viking = UnitTypeData::new(UnitTypeId::Other(35), Race::Terran);
    viking.weapons = vec![weapon(TargetType::Air, 10, 9, 5000)];
    data.units.push(viking);
    let mut tank = UnitTypeData::new(UnitTypeId::SiegeTankSieged, Race::Terran);
    tank.weapons = vec![weapon(TargetType::Ground, 40, 13, 8000)];
    data.units.push(tank);
    let mut ghost = UnitTypeData::new(UnitTypeId::TerranGhost, Race::Terran);
    ghost.weapons = vec![weapon(TargetType::Any, 10, 6, 4000)];
    data.units.push(ghost);
    let mut bunker = UnitTypeData::new(UnitTypeId::Other(24), Race::Terran);
    bunker.attributes = vec![Attribute::Armored, Attribute::Structure];
    bunker.armor = 1;
    data.units.push(bunker);
    data.units.push(UnitTypeData::new(UnitTypeId::Baneling, Race::Zerg));
    data.units.push(UnitTypeData::new(UnitTypeId::Ultralisk, Race::Zerg));
    let mut zergling = UnitTypeData::new(UnitTypeId::Zergling, Race::Zerg);
    zergling.movement_speed = 4 * SCALE;
    zergling.weapons = vec![weapon(TargetType::Ground, 5, 0, 2800)];
    data.units.push(zergling);
    data.missed_weapons.push((UnitTypeId::Baneling, vec![weapon(TargetType::Ground, 16, 2, 4096)]));
    data.damage_bonus_per_upgrade.push(UpgradeBonus {
        unit: UnitTypeId::Other(52),
        target: TargetType::Ground,
        damage: Some(3),
        bonus: Vec::new(),
    });
    data.damage_bonus_per_upgrade.push(UpgradeBonus {
        unit: UnitTypeId::Hellion,
        target: TargetType::Ground,
        damage: None,
        bonus: vec![(Attribute::Light, 1)],
    });
    data.abilities.push(AbilityData {
        id: AbilityId::EffectGhostSnipe,
        is_building: false,
        footprint_radius: None,
        cast_range: Some(10 * SCALE),
    });
    data.speed_buffs.push((BuffId::Stimpack, Ratio { num: 3, den: 2 }));
    data.speed_buffs.push((BuffId::FungalGrowth, Ratio { num: 1, den: 4 }));
    data.speed_upgrades.push(SpeedUpgrade {
        unit: UnitTypeId::Zergling,
        upgrade: UpgradeId::Zerglingattackspeed,
        increase: Ratio { num: 8, den: 5 },
    });
    data.off_creep_speed_upgrades.push(SpeedUpgrade {
        unit: UnitTypeId::Hydralisk,
        upgrade: UpgradeId::EvolveGroovedSpines,
        increase: Ratio { num: 5, den: 4 },
    });
    data.speed_on_creep.push((UnitTypeId::Zergling, Ratio { num: 13, den: 10 }));
    data
}

fn unit(tag: u64, t: UnitTypeId, x: i32, y: i32) -> Unit {
    Unit::blank(tag, t, Alliance::Own, Point2::new(x * SCALE, y * SCALE))
}

fn stats(damage: u32, speed: i32, range: i32) -> WeaponStats {
    WeaponStats { damage, speed, range }
}

fn no_upgrades() -> Vec<UpgradeId> {
    Vec::new()
}

#[test]
fn a_unit_has_the_weapons_of_its_type_or_those_the_rules_list() {
    let data = rules();
    assert_eq!(unit(1, UnitTypeId::Marine, 0, 0).weapons(&data).len(), 1);
    assert_eq!(unit(1, UnitTypeId::Baneling, 0, 0).weapons(&data)[0].damage, 16);
    assert_eq!(unit(1, UnitTypeId::BanelingBurrowed, 0, 0).weapons(&data)[0].damage, 16);
    assert!(unit(1, UnitTypeId::ChangelingMarine, 0, 0).weapons(&data).is_empty());
    assert!(unit(1, UnitTypeId::Ultralisk, 0, 0).weapons(&data).is_empty());
    assert!(unit(1, UnitTypeId::Other(77), 0, 0).weapons(&data).is_empty());
    assert!(unit(1, UnitTypeId::RavagerCocoon, 0, 0).weapons(&data).is_empty());
    assert!(unit(1, UnitTypeId::Marine, 0, 0).can_attack(&data));
    assert!(!unit(1, UnitTypeId::Ultralisk, 0, 0).can_attack(&data));
}

#[test]
fn the_kinds_of_target_follow_from_the_weapons() {
    let data = rules();
    let marine = unit(1, UnitTypeId::Marine, 0, 0);
    let thor = unit(2, UnitTypeId::Other(52), 0, 0);
    let marauder = unit(3, UnitTypeId::Other(51), 0, 0);
    let viking = unit(4, UnitTypeId::Other(35), 0, 0);
    let none = unit(5, UnitTypeId::Ultralisk, 0, 0);
    assert_eq!(marine.weapon_target(&data), Some(TargetType::Any));
    assert_eq!(thor.weapon_target(&data), Some(TargetType::Any));
    assert_eq!(marauder.weapon_target(&data), Some(TargetType::Ground));
    assert_eq!(viking.weapon_target(&data), Some(TargetType::Air));
    assert_eq!(none.weapon_target(&data), None);
    assert!(thor.can_attack_both(&data) && !marauder.can_attack_both(&data) && !none.can_attack_both(&data));
    assert!(marauder.can_attack_ground(&data) && !marauder.can_attack_air(&data));
    assert!(viking.can_attack_air(&data) && !viking.can_attack_ground(&data));
    let mut flyer = unit(6, UnitTypeId::Other(35), 0, 0);
    flyer.is_flying = true;
    assert!(viking.can_attack_unit(&flyer, &data));
    assert!(!marauder.can_attack_unit(&flyer, &data));
    assert!(marauder.can_attack_unit(&marine, &data));
    assert!(!viking.can_attack_unit(&marine, &data));
    assert!(viking.can_attack_unit(&unit(7, UnitTypeId::Colossus, 0, 0), &data));
    assert!(!none.can_attack_unit(&unit(7, UnitTypeId::Colossus, 0, 0), &data));
    assert_eq!(marauder.damage_bonus(&data), Some((Attribute::Armored, 10)));
    assert_eq!(marine.damage_bonus(&data), None);
}

#[test]
fn ranges_are_those_of_the_first_weapon_that_can_hit() {
    let data = rules();
    let thor = unit(2, UnitTypeId::Other(52), 0, 0);
    assert_eq!(thor.ground_range(&data), 7 * SCALE);
    assert_eq!(thor.air_range(&data), 10 * SCALE);
    let marauder = unit(3, UnitTypeId::Other(51), 0, 0);
    assert_eq!(marauder.air_range(&data), 0);
    let mut flyer = unit(6, UnitTypeId::Other(35), 0, 0);
    flyer.is_flying = true;
    assert_eq!(thor.range_vs(&flyer, &data), 10 * SCALE);
    assert_eq!(thor.range_vs(&marauder, &data), 7 * SCALE);
    assert_eq!(thor.range_vs(&unit(7, UnitTypeId::Colossus, 0, 0), &data), 10 * SCALE);
    assert_eq!(marauder.range_vs(&flyer, &data), 0);
}

#[test]
fn upgrades_lengthen_the_range() {
    let data = rules();
    let hydra = unit(1, UnitTypeId::Hydralisk, 0, 0);
    let spines = vec![UpgradeId::EvolveGroovedSpines];
    assert_eq!(hydra.real_ground_range(&no_upgrades(), &data), 5 * SCALE);
    assert_eq!(hydra.real_ground_range(&spines, &data), 6 * SCALE);
    assert_eq!(hydra.real_air_range(&spines, &data), 6 * SCALE);
    let target = unit(2, UnitTypeId::Marine, 0, 0);
    assert_eq!(hydra.real_range_vs(&target, &spines, &data), 6 * SCALE as i64);
    let colossus = unit(3, UnitTypeId::Colossus, 0, 0);
    assert_eq!(colossus.real_range_vs(&target, &vec![UpgradeId::ExtendedThermalLance], &data), 9 * SCALE as i64);
    assert_eq!(colossus.real_ground_range(&vec![UpgradeId::ExtendedThermalLance], &data), 7 * SCALE);
    let mut ghost = unit(4, UnitTypeId::TerranGhost, 0, 0);
    assert_eq!(ghost.real_range_vs(&target, &no_upgrades(), &data), 6 * SCALE as i64);
    ghost.energy = Some(49);
    assert_eq!(ghost.real_range_vs(&target, &no_upgrades(), &data), 6 * SCALE as i64);
    ghost.energy = Some(50);
    assert_eq!(ghost.real_range_vs(&target, &no_upgrades(), &data), 10 * SCALE as i64);
    ghost.energy = None;
    ghost.buffs = vec![BuffId::ChannelSnipeCombat];
    assert_eq!(ghost.real_range_vs(&target, &no_upgrades(), &data), 14 * SCALE as i64);
}

#[test]
fn a_target_is_in_range_up_to_the_range_and_both_radii() {
    let data = rules();
    let mut marine = unit(1, UnitTypeId::Marine, 0, 0);
    marine.radius = SCALE / 2;
    let mut target = unit(2, UnitTypeId::Other(51), 6, 0);
    target.radius = SCALE / 2;
    assert!(marine.in_range(&target, 0, &data));
    assert!(target.in_range_of(&marine, 0, &data));
    target.position = Point2::new(6 * SCALE + 1, 0);
    assert!(!marine.in_range(&target, 0, &data));
    assert!(marine.in_range(&target, 1, &data));
    assert!(marine.in_real_range(&target, 1, &no_upgrades(), &data));
    assert!(!target.in_real_range_of(&marine, 0, &no_upgrades(), &data));
    // The marauder cannot fire at what flies.
    let mut flyer = unit(3, UnitTypeId::Other(35), 1, 0);
    flyer.is_flying = true;
    assert!(!target.in_range(&flyer, 0, &data));
    assert!(!target.in_real_range(&flyer, 0, &no_upgrades(), &data));
    assert!(!unit(4, UnitTypeId::Ultralisk, 0, 0).in_range(&unit(5, UnitTypeId::Colossus, 0, 0), 0, &data));
}

#[test]
fn a_sieged_tank_cannot_fire_at_what_stands_too_near() {
    let data = rules();
    let tank = unit(1, UnitTypeId::SiegeTankSieged, 0, 0);
    assert!(!tank.in_range(&unit(2, UnitTypeId::Marine, 2, 0), 0, &data));
    assert!(tank.in_range(&Unit::blank(2, UnitTypeId::Marine, Alliance::Enemy, Point2::new(2 * SCALE + 1, 0)), 0, &data));
    assert!(tank.in_range(&unit(2, UnitTypeId::Marine, 13, 0), 0, &data));
    assert!(!tank.in_range(&unit(2, UnitTypeId::Marine, 14, 0), 0, &data));
    assert!(tank.reaches(Point2::new(13 * SCALE, 0), 0, 13 * SCALE as i64, 0));
    assert!(!tank.reaches(Point2::new(SCALE, 0), 0, 13 * SCALE as i64, 0));
}

#[test]
fn an_ability_is_cast_from_within_its_range() {
    let data = rules();
    let mut ghost = unit(1, UnitTypeId::TerranGhost, 0, 0);
    ghost.radius = SCALE / 2;
    let mut target = unit(2, UnitTypeId::Marine, 11, 0);
    target.radius = SCALE / 2;
    assert!(ghost.in_ability_cast_range(AbilityId::EffectGhostSnipe, &target, 0, &data));
    target.radius = SCALE / 2 - 1;
    assert!(!ghost.in_ability_cast_range(AbilityId::EffectGhostSnipe, &target, 0, &data));
    assert!(ghost.in_ability_cast_range(AbilityId::EffectGhostSnipe, &target, 1, &data));
    let place = Point2::new(10 * SCALE + SCALE / 2, 0);
    assert!(ghost.in_ability_cast_range(AbilityId::EffectGhostSnipe, &place, 0, &data));
    assert!(!ghost.in_ability_cast_range(AbilityId::EffectGhostSnipe, &Point2::new(place.x + 1, 0), 0, &data));
    assert!(!ghost.in_ability_cast_range(AbilityId::Attack, &Point2::new(0, 0), 0, &data));
}

#[test]
fn the_weapon_of_a_unit_counts_with_its_upgrades() {
    let data = rules();
    let marine = unit(1, UnitTypeId::Marine, 0, 0);
    let light = vec![Attribute::Light];
    assert_eq!(marine.real_weapon(&light, &no_upgrades(), &data), stats(6, 2500, 5 * SCALE));
    let mut upgraded = unit(1, UnitTypeId::Marine, 0, 0);
    upgraded.attack_upgrade_level = 2;
    assert_eq!(upgraded.real_weapon(&light, &no_upgrades(), &data).damage, 8);
    let mut thor = unit(2, UnitTypeId::Other(52), 0, 0);
    thor.attack_upgrade_level = 2;
    assert_eq!(thor.real_ground_weapon(&light, &no_upgrades(), &data), stats(36, 3700, 7 * SCALE));
    assert_eq!(thor.real_air_weapon(&light, &no_upgrades(), &data), stats(27, 8800, 10 * SCALE));
    assert_eq!(thor.real_weapon(&light, &no_upgrades(), &data).damage, 36);
    assert_eq!(
        thor.calculate_weapon_abstract(TargetType::Air, &light, &no_upgrades(), &data).damage,
        27
    );
    let none = unit(3, UnitTypeId::Ultralisk, 0, 0);
    assert_eq!(none.real_weapon(&light, &no_upgrades(), &data), stats(0, 0, 0));
}

#[test]
fn additional_damage_counts_against_the_right_attribute() {
    let data = rules();
    let marauder = unit(1, UnitTypeId::Other(51), 0, 0);
    assert_eq!(marauder.real_ground_weapon(&vec![Attribute::Armored], &no_upgrades(), &data).damage, 20);
    assert_eq!(marauder.real_ground_weapon(&vec![Attribute::Light], &no_upgrades(), &data).damage, 10);
    assert_eq!(marauder.real_air_weapon(&vec![Attribute::Armored], &no_upgrades(), &data), stats(0, 0, 0));
    let mut hellion = unit(2, UnitTypeId::Hellion, 0, 0);
    hellion.attack_upgrade_level = 3;
    let light = vec![Attribute::Light];
    assert_eq!(hellion.real_ground_weapon(&light, &no_upgrades(), &data).damage, 8 + 3 + 6 + 3);
    assert_eq!(
        hellion.real_ground_weapon(&light, &vec![UpgradeId::HighCapacityBarrels], &data).damage,
        8 + 3 + 6 + 3 * 6
    );
    let weapons = hellion.weapons(&data);
    assert_eq!(attack_damage_of(&hellion, &weapons[0], &[Attribute::Armored], &no_upgrades(), &data), 11);
}

#[test]
fn buffs_and_upgrades_change_the_time_between_volleys() {
    let data = rules();
    let light: Vec<Attribute> = Vec::new();
    let mut marine = unit(1, UnitTypeId::Marine, 0, 0);
    marine.buffs = vec![BuffId::Stimpack];
    assert_eq!(marine.real_weapon(&light, &no_upgrades(), &data).speed, 1666);
    marine.buffs = vec![BuffId::Stimpack, BuffId::TimeWarpProduction];
    assert_eq!(marine.real_weapon(&light, &no_upgrades(), &data).speed, 3333);
    let zergling = unit(2, UnitTypeId::Zergling, 0, 0);
    assert_eq!(zergling.real_weapon(&light, &vec![UpgradeId::Zerglingattackspeed], &data).speed, 2000);
    let hydra = unit(3, UnitTypeId::Hydralisk, 0, 0);
    let s = hydra.real_weapon(&light, &vec![UpgradeId::EvolveGroovedSpines], &data);
    assert_eq!((s.range, s.speed), (6 * SCALE, 2400));
}

#[test]
fn an_oracle_fires_only_with_its_weapon_switched_on() {
    let data = rules();
    let mut oracle = unit(1, UnitTypeId::Oracle, 0, 0);
    let any: Vec<Attribute> = Vec::new();
    assert_eq!(oracle.real_weapon(&any, &no_upgrades(), &data), stats(0, 0, 0));
    oracle.buffs = vec![BuffId::OracleWeapon];
    assert_eq!(oracle.real_weapon(&any, &no_upgrades(), &data), stats(15, 2400, 4 * SCALE));
}

#[test]
fn armor_takes_damage_off_each_attack() {
    let data = rules();
    let marine = unit(1, UnitTypeId::Marine, 0, 0);
    let mut marauder = unit(2, UnitTypeId::Other(51), 0, 0);
    marauder.health = Some(125);
    marauder.armor_upgrade_level = 2;
    let s = marine.real_weapon_vs(&marauder, &no_upgrades(), &no_upgrades(), &data);
    assert_eq!(s, stats(3, 2500, 5 * SCALE));
    marauder.buffs = vec![BuffId::RavenShredderMissileArmorReduction];
    assert_eq!(marine.real_weapon_vs(&marauder, &no_upgrades(), &no_upgrades(), &data).damage, 6);
    marauder.buffs = vec![BuffId::GuardianShield];
    assert_eq!(marine.real_weapon_vs(&marauder, &no_upgrades(), &no_upgrades(), &data).damage, 1);
    marauder.health = None;
    assert_eq!(marine.real_weapon_vs(&marauder, &no_upgrades(), &no_upgrades(), &data).damage, 0);
    let mut bunker = unit(3, UnitTypeId::Other(24), 0, 0);
    bunker.health = Some(400);
    assert_eq!(marine.real_weapon_vs(&bunker, &no_upgrades(), &no_upgrades(), &data).damage, 5);
    assert_eq!(
        marine.real_weapon_vs(&bunker, &no_upgrades(), &vec![UpgradeId::TerranBuildingArmor], &data).damage,
        3
    );
    let p = protection_of(&bunker, &vec![UpgradeId::TerranBuildingArmor], &data);
    assert_eq!((p.armor, p.shield_armor, p.guarded, p.health), (3, 0, false, Some(400)));
}

#[test]
fn a_volley_goes_through_the_shield_to_the_health() {
    let data = rules();
    let zealot = unit(1, UnitTypeId::Other(73), 0, 0);
    let mut target = unit(2, UnitTypeId::Other(73), 0, 0);
    target.health = Some(100);
    target.shield = Some(50);
    // Two attacks of eight on the shield, which has no armor.
    assert_eq!(zealot.real_weapon_vs(&target, &no_upgrades(), &no_upgrades(), &data).damage, 16);
    target.shield = Some(8);
    // The first takes the shield down; the second hits the health with armor one.
    assert_eq!(zealot.real_weapon_vs(&target, &no_upgrades(), &no_upgrades(), &data).damage, 8 + 7);
    target.shield = Some(5);
    // What the first attack has left over goes through to the health.
    assert_eq!(zealot.real_weapon_vs(&target, &no_upgrades(), &no_upgrades(), &data).damage, 8 + 3 + 7);
    target.shield = Some(0);
    assert_eq!(zealot.real_weapon_vs(&target, &no_upgrades(), &no_upgrades(), &data).damage, 14);
    target.health = Some(5);
    assert_eq!(zealot.real_weapon_vs(&target, &no_upgrades(), &no_upgrades(), &data).damage, 7);
    let shielded = Protection { armor: 0, shield_armor: 0, guarded: false, shield: Some(10), health: Some(3) };
    assert_eq!(volley_on(4, 5, 0, &shielded), 12 + 2 + 4);
    assert_eq!(volley_on(4, 0, 0, &shielded), 0);
    assert_eq!(volley_on(4, 3, 0, &shielded), 12);
    let guarded = Protection { armor: 1, shield_armor: 0, guarded: true, shield: None, health: Some(100) };
    assert_eq!(volley_on(10, 2, 2 * SCALE, &guarded), 14);
    assert_eq!(volley_on(10, 2, 2 * SCALE - 1, &guarded), 18);
    assert_eq!(volley_on(1, 2, 0, &guarded), 2);
}

#[test]
fn the_target_can_be_given_as_a_unit_or_by_its_kind() {
    let data = rules();
    let thor = unit(1, UnitTypeId::Other(52), 0, 0);
    let mut flyer = unit(2, UnitTypeId::Other(35), 0, 0);
    flyer.is_flying = true;
    flyer.health = Some(100);
    let s = thor.calculate_weapon_stats(CalcTarget::Unit(&flyer), &no_upgrades(), &no_upgrades(), &data);
    assert_eq!(s, stats(25, 8800, 10 * SCALE));
    let armored = vec![Attribute::Armored];
    let s = thor.calculate_weapon_stats(
        CalcTarget::Abstract(TargetType::Ground, &armored),
        &no_upgrades(),
        &no_upgrades(),
        &data,
    );
    assert_eq!(s, stats(30, 3700, 7 * SCALE));
    let mut colossus = unit(3, UnitTypeId::Colossus, 0, 0);
    colossus.health = Some(200);
    let s = thor.calculate_weapon_stats(CalcTarget::Unit(&colossus), &no_upgrades(), &no_upgrades(), &data);
    assert_eq!(s.damage, 30);
}

#[test]
fn damage_in_a_second_is_damage_by_time() {
    assert_eq!(stats(10, 2 * SCALE, 0).dps(), Some(5 * SCALE as u64));
    assert_eq!(stats(6, 2500, 0).dps(), Some(40265));
    assert_eq!(stats(6, 0, 0).dps(), None);
    assert_eq!(stats(6, -5, 0).dps(), None);
    // The record that stands for no weapon does no damage in any time.
    assert_eq!(stats(0, 0, 0).dps(), Some(0));
    assert_eq!(stats(0, -5, 0).dps(), Some(0));
    assert_eq!(stats(0, SCALE, 0).dps(), Some(0));
    let none = unit(3, UnitTypeId::Ultralisk, 0, 0);
    let light = vec![Attribute::Light];
    assert_eq!(none.real_weapon(&light, &no_upgrades(), &rules()).dps(), Some(0));
}

#[test]
fn speed_counts_buffs_upgrades_and_creep() {
    let data = rules();
    let creep = {
        let mut g = Grid::filled(10, 10, false).unwrap();
        g.set((5, 5), true);
        g
    };
    let mut marine = unit(1, UnitTypeId::Marine, 0, 0);
    assert_eq!(marine.speed(&data), 3 * SCALE);
    assert_eq!(marine.base_real_speed(&no_upgrades(), &data), 3 * SCALE);
    marine.buffs = vec![BuffId::Stimpack, BuffId::FungalGrowth];
    assert_eq!(marine.base_real_speed(&no_upgrades(), &data), 3 * SCALE * 3 / 8);
    marine.buffs = vec![BuffId::Stimpack, BuffId::MedivacSpeedBoost, BuffId::FungalGrowth];
    assert_eq!(marine.base_real_speed(&no_upgrades(), &data), 3 * SCALE * 3 / 2 * 17 / 10);
    marine.buffs = vec![BuffId::VoidRaySwarmDamageBoost];
    assert_eq!(marine.base_real_speed(&no_upgrades(), &data), 3 * SCALE * 3 / 4);

    let mut zergling = unit(2, UnitTypeId::Zergling, 5, 5);
    let speed = vec![UpgradeId::Zerglingattackspeed];
    assert_eq!(zergling.base_real_speed(&speed, &data), 4 * SCALE * 8 / 5);
    assert_eq!(zergling.off_creep_speed(&speed, &data), 4 * SCALE * 8 / 5);
    assert_eq!(zergling.on_creep_speed(&no_upgrades(), &data), 4 * SCALE * 13 / 10);
    assert!(zergling.is_unit_on_creep(&creep));
    assert_eq!(zergling.real_speed(&no_upgrades(), &creep, &data), 4 * SCALE * 13 / 10);
    zergling.position = Point2::new(0, 0);
    assert!(!zergling.is_unit_on_creep(&creep));
    assert_eq!(zergling.real_speed(&no_upgrades(), &creep, &data), 4 * SCALE);
    assert_eq!(zergling.distance_per_step(8, &no_upgrades(), &creep, &data), 4 * SCALE as i64 * 80 / 224);
    zergling.weapon_cooldown = Some(2 * SCALE);
    assert_eq!(zergling.distance_to_weapon_ready(&no_upgrades(), &creep, &data), 4 * SCALE as i64 * 20 / 224);
    zergling.weapon_cooldown = None;
    assert_eq!(zergling.distance_to_weapon_ready(&no_upgrades(), &creep, &data), 0);

    let hydra = unit(3, UnitTypeId::Hydralisk, 0, 0);
    assert_eq!(hydra.off_creep_speed(&vec![UpgradeId::EvolveGroovedSpines], &data), 0);
    assert_eq!(scale(100, Ratio { num: 3, den: 2 }), 150);
    assert_eq!(scale(-7, Ratio { num: 1, den: 2 }), -4);
    assert_eq!(scale(100, Ratio { num: 3, den: 0 }), 100);
    assert_eq!(scale(i32::MAX, Ratio { num: 2, den: 1 }), i32::MAX);
}

#[test]
fn what_a_unit_does_follows_from_its_first_order() {
    let data = {
        let mut d = rules();
        let mut depot = UnitTypeData::new(UnitTypeId::SupplyDepot, Race::Terran);
        depot.ability = Some(AbilityId::TerranBuildSupplyDepot);
        d.units.push(depot);
        d.abilities.push(AbilityData {
            id: AbilityId::TerranBuildSupplyDepot,
            is_building: true,
            footprint_radius: Some(SCALE),
            cast_range: None,
        });
        d
    };
    let order = |ability, target, progress| UnitOrder { ability, target, progress };
    let spot = Point2::new(5, 5);
    let mut scv = unit(1, UnitTypeId::SCV, 0, 0);
    assert!(scv.is_idle() && scv.is_almost_idle());
    assert_eq!(scv.order(), None);
    assert_eq!(scv.target(), Target::Nowhere);
    assert_eq!(scv.ordered_ability(), None);
    assert!(!scv.is_collecting() && !scv.is_attacking() && !scv.is_constructing(&data));

    scv.orders = vec![order(AbilityId::HarvestGatherSCV, Target::Tag(9), 0), order(AbilityId::Attack, Target::Pos(spot), 0)];
    assert!(!scv.is_idle() && !scv.is_almost_idle());
    assert_eq!(scv.order(), Some((AbilityId::HarvestGatherSCV, Target::Tag(9), 0)));
    assert_eq!(scv.target_tag(), Some(9));
    assert_eq!(scv.target_pos(), None);
    assert!(scv.is_gathering() && scv.is_collecting() && !scv.is_returning());
    assert!(scv.is_using(AbilityId::HarvestGatherSCV) && !scv.is_using(AbilityId::Attack));
    assert!(scv.is_using_any(&vec![AbilityId::Stop, AbilityId::HarvestGatherSCV]));
    assert!(!scv.is_using_any(&vec![AbilityId::Stop]));
    scv.orders = vec![order(AbilityId::HarvestReturnDrone, Target::Nowhere, 0)];
    assert!(scv.is_returning() && !scv.is_collecting());
    scv.orders = vec![order(AbilityId::ScanMove, Target::Pos(spot), 0)];
    assert!(scv.is_attacking());
    assert_eq!(scv.target_pos(), Some(spot));
    scv.orders = vec![order(AbilityId::MoveMove, Target::Pos(spot), 0)];
    assert!(scv.is_moving() && !scv.is_patrolling());
    scv.orders = vec![order(AbilityId::Patrol, Target::Pos(spot), 0)];
    assert!(scv.is_patrolling());
    scv.orders = vec![order(AbilityId::EffectRepairSCV, Target::Tag(2), 0)];
    assert!(scv.is_repairing());
    scv.orders = vec![order(AbilityId::TerranBuildSupplyDepot, Target::Pos(spot), 0)];
    assert!(scv.is_constructing(&data));
    assert!(scv.is_constructing_any(&vec![UnitTypeId::Barracks, UnitTypeId::SupplyDepot], &data));
    assert!(!scv.is_constructing_any(&vec![UnitTypeId::Barracks], &data));
    let mut marine = unit(2, UnitTypeId::Marine, 0, 0);
    marine.orders = scv.orders.clone();
    assert!(!marine.is_constructing(&data));

    let mut barracks = unit(3, UnitTypeId::Barracks, 0, 0);
    let reactors = {
        let mut r = TagSet::new();
        r.insert(50);
        r
    };
    barracks.orders = vec![order(AbilityId::BuildReactorBarracks, Target::Nowhere, 3892)];
    assert!(barracks.is_making_addon() && barracks.is_making_reactor() && !barracks.is_making_techlab());
    assert!(barracks.is_almost_idle());
    assert!(!barracks.is_unused(&reactors) && barracks.is_almost_unused(&reactors));
    barracks.addon_tag = Some(50);
    assert!(barracks.is_unused(&reactors));
    barracks.orders.push(order(AbilityId::Other(1), Target::Nowhere, 0));
    assert!(!barracks.is_unused(&reactors) && barracks.is_almost_unused(&reactors));
    barracks.orders[0].progress = 3891;
    assert!(!barracks.is_almost_unused(&reactors));
    barracks.orders = vec![order(AbilityId::BuildTechLabFactory, Target::Nowhere, 0)];
    assert!(!barracks.is_making_addon() && barracks.is_making_techlab());

    let depot = unit(4, UnitTypeId::SupplyDepot, 0, 0);
    assert_eq!(depot.footprint_radius(&data), Some(SCALE));
    assert_eq!(depot.building_size(&data), Some(2));
    assert_eq!(unit(5, UnitTypeId::BarracksReactor, 0, 0).building_size(&data), Some(2));
    assert_eq!(unit(6, UnitTypeId::Marine, 0, 0).building_size(&data), None);
    let mut firing = unit(7, UnitTypeId::Marine, 0, 0);
    assert!(!firing.on_cooldown());
    firing.weapon_cooldown = Some(1);
    assert!(firing.on_cooldown());
}

#[test]
fn damage_in_a_second_of_a_unit_is_that_of_the_weapon_that_hits() {
    let data = rules();
    let scale2 = (SCALE as u128) * (SCALE as u128);
    let thor = unit(1, UnitTypeId::Other(52), 0, 0);
    assert_eq!(thor.ground_dps(&data), Some(30 * scale2 / 3700));
    assert_eq!(thor.air_dps(&data), Some(25 * scale2 / 8800));
    let zealot = unit(2, UnitTypeId::Other(73), 0, 0);
    assert_eq!(zealot.ground_dps(&data), Some(16 * scale2 / 3500));
    assert_eq!(zealot.air_dps(&data), Some(0));
    let none = unit(3, UnitTypeId::Ultralisk, 0, 0);
    assert_eq!(none.ground_dps(&data), Some(0));
    let mut flyer = unit(4, UnitTypeId::Other(35), 0, 0);
    flyer.is_flying = true;
    assert_eq!(thor.dps_vs(&flyer, &data), Some(25 * scale2 / 8800));
    assert_eq!(thor.dps_vs(&zealot, &data), Some(30 * scale2 / 3700));
    assert_eq!(zealot.dps_vs(&flyer, &data), Some(0));
    // Against a colossus the better of the weapons counts.
    let colossus = unit(5, UnitTypeId::Colossus, 0, 0);
    assert_eq!(thor.dps_vs(&colossus, &data), Some(30 * scale2 / 3700));
    assert_eq!(flyer.dps_vs(&colossus, &data), Some(10 * scale2 / 5000));
    assert_eq!(none.dps_vs(&colossus, &data), Some(0));
    assert_eq!(dps_of(&weapon(TargetType::Any, 7, 1, 0)), None);
    assert_eq!(dps_of(&weapon(TargetType::Any, 0, 1, 0)), Some(0));
    assert_eq!(dps_of(&weapon(TargetType::Any, 7, 1, SCALE)), Some(7 * SCALE as u128));
    let mut broken = rules();
    broken.units[0].weapons[0].speed = 0;
    assert_eq!(unit(6, UnitTypeId::Marine, 0, 0).ground_dps(&broken), None);
    assert_eq!(unit(6, UnitTypeId::Marine, 0, 0).dps_vs(&colossus, &broken), None);
}

#[test]
fn a_unit_tells_what_the_rules_and_the_lists_say_of_it() {
    let data = rules();
    let marine = unit(1, UnitTypeId::Marine, 0, 0);
    assert_eq!(marine.attributes(&data), &[Attribute::Light, Attribute::Biological][..]);
    assert!(unit(2, UnitTypeId::Other(999), 0, 0).attributes(&data).is_empty());

    let available = vec![(7u64, vec![AbilityId::Stop]), (1, vec![AbilityId::Attack, AbilityId::Other(380)]), (1, vec![])];
    assert_eq!(marine.abilities(&available), Some(&vec![AbilityId::Attack, AbilityId::Other(380)]));
    assert!(marine.has_ability(AbilityId::Other(380), &available));
    assert!(!marine.has_ability(AbilityId::Stop, &available));
    let other = unit(3, UnitTypeId::Marine, 0, 0);
    assert_eq!(other.abilities(&available), None);
    assert!(!other.has_ability(AbilityId::Attack, &available));

    let mut firing = unit(4, UnitTypeId::Marine, 0, 0);
    let longest = vec![(UnitTypeId::Marine, 8 * SCALE), (UnitTypeId::SCV, 0), (UnitTypeId::Drone, -4 * SCALE)];
    assert_eq!(firing.cooldown_percentage(&longest), None);
    firing.weapon_cooldown = Some(2 * SCALE);
    assert_eq!(firing.cooldown_percentage(&longest), Some(SCALE as i64 / 4));
    firing.weapon_cooldown = Some(1);
    assert_eq!(firing.cooldown_percentage(&longest), Some(0));
    firing.weapon_cooldown = Some(-1);
    assert_eq!(firing.cooldown_percentage(&longest), Some(-1));
    firing.weapon_cooldown = Some(8 * SCALE);
    assert_eq!(firing.cooldown_percentage(&longest), Some(SCALE as i64));
    assert_eq!(firing.cooldown_percentage(&Vec::new()), None);
    let mut scv = unit(5, UnitTypeId::SCV, 0, 0);
    scv.weapon_cooldown = Some(5);
    assert_eq!(scv.cooldown_percentage(&longest), None);
    let mut drone = unit(6, UnitTypeId::Drone, 0, 0);
    drone.weapon_cooldown = Some(SCALE);
    assert_eq!(drone.cooldown_percentage(&longest), Some(-(SCALE as i64) / 4));
}

#[test]
fn the_rules_tell_which_units_fight_hand_to_hand() {
    let mut data = rules();
    data.melee_ids = vec![UnitTypeId::Zergling, UnitTypeId::Ultralisk];
    assert!(unit(1, UnitTypeId::Zergling, 0, 0).is_melee(&data));
    assert!(unit(2, UnitTypeId::Ultralisk, 0, 0).is_melee(&data));
    assert!(!unit(3, UnitTypeId::Marine, 0, 0).is_melee(&data));
    assert!(!unit(1, UnitTypeId::Zergling, 0, 0).is_melee(&rules()));
}
