use sc2_core::action::{Action, Commander, Point3, Target};
use sc2_core::game_data::{GameData, UnitTypeData, UpgradeData};
use sc2_core::game_state::{Alliance, Race};
use sc2_core::geometry::Point2;
use sc2_core::ids::{AbilityId, UnitTypeId, UpgradeId};
use sc2_core::unit::Unit;

fn unit_commands(actions: &[Action]) -> Vec<(AbilityId, Target, Vec<u64>, bool)> {
    actions
        .iter()
        .filter_map(|a| match a {
            Action::UnitCommand(ability, target, tags, queue) => {
                Some((*ability, *target, tags.clone(), *queue))
            }
            _ => None,
        })
        .collect()
}

#[test]
fn a_new_queue_is_empty_and_flushes_to_nothing() {
    let mut commander = Commander::new();
    assert!(commander.is_empty());
    assert!(commander.flush().is_empty());
}

#[test]
fn units_with_the_same_order_share_one_action() {
    let mut commander = Commander::new();
    let target = Target::Pos(Point2::new(10, 20));
    commander.command(1, AbilityId::Attack, target, false);
    commander.command(2, AbilityId::MoveMove, target, false);
    commander.command(3, AbilityId::Attack, target, false);
    commander.command(4, AbilityId::Attack, target, true);
    commander.command(5, AbilityId::Attack, Target::Tag(9), false);
    assert!(!commander.is_empty());
    let actions = commander.flush();
    assert_eq!(
        unit_commands(&actions),
        vec![
            (AbilityId::Attack, target, vec![1, 3], false),
            (AbilityId::MoveMove, target, vec![2], false),
            (AbilityId::Attack, target, vec![4], true),
            (AbilityId::Attack, Target::Tag(9), vec![5], false),
        ]
    );
    assert_eq!(actions.len(), 4);
}

#[test]
fn the_same_order_given_twice_names_the_unit_once() {
    let mut commander = Commander::new();
    commander.command(7, AbilityId::Attack, Target::Tag(1), false);
    commander.command(8, AbilityId::Attack, Target::Tag(1), false);
    commander.command(7, AbilityId::Attack, Target::Tag(1), false);
    let actions = commander.flush();
    assert_eq!(
        unit_commands(&actions),
        vec![(AbilityId::Attack, Target::Tag(1), vec![7, 8], false)]
    );
}

#[test]
fn flush_empties_the_queue() {
    let mut commander = Commander::new();
    commander.command(7, AbilityId::Stop, Target::Nowhere, false);
    commander.toggle_autocast(7, AbilityId::EffectRepair);
    assert_eq!(commander.flush().len(), 2);
    assert!(commander.is_empty());
    assert!(commander.flush().is_empty());
}

#[test]
fn switches_of_autocast_follow_the_orders_and_are_batched_too() {
    let mut commander = Commander::new();
    commander.toggle_autocast(1, AbilityId::EffectRepair);
    commander.command(2, AbilityId::Stop, Target::Nowhere, false);
    commander.toggle_autocast(3, AbilityId::EffectRepair);
    commander.toggle_autocast(1, AbilityId::EffectRepair);
    commander.toggle_autocast(1, AbilityId::Other(5));
    let actions = commander.flush();
    assert_eq!(actions.len(), 3);
    assert!(matches!(&actions[0], Action::UnitCommand(AbilityId::Stop, Target::Nowhere, tags, false) if tags == &vec![2]));
    assert!(matches!(&actions[1], Action::ToggleAutocast(AbilityId::EffectRepair, tags) if tags == &vec![1, 3]));
    assert!(matches!(&actions[2], Action::ToggleAutocast(AbilityId::Other(5), tags) if tags == &vec![1]));
}

#[test]
fn a_unit_gives_its_orders_under_its_tag() {
    let u = Unit::blank(11, UnitTypeId::SCV, Alliance::Own, Point2::new(0, 0));
    let mut commander = Commander::new();
    let spot = Point2::new(8, 9);
    u.attack(&mut commander, Target::Tag(2), false);
    u.move_to(&mut commander, Target::Pos(spot), true);
    u.smart(&mut commander, Target::Tag(3), false);
    u.stop(&mut commander, false);
    u.hold_position(&mut commander, false);
    u.gather(&mut commander, 4, false);
    u.return_resource(&mut commander, true);
    u.patrol(&mut commander, Target::Pos(spot), false);
    u.repair(&mut commander, 5, false);
    u.cancel_building(&mut commander, false);
    u.lift(&mut commander, false);
    u.land(&mut commander, spot, false);
    u.use_ability(&mut commander, AbilityId::Other(1), false);
    u.warp_in(&mut commander, AbilityId::Other(2), spot);
    u.command(&mut commander, AbilityId::Other(3), Target::Nowhere, true);
    u.toggle_autocast(&mut commander, AbilityId::Other(4));
    let actions = commander.flush();
    assert_eq!(
        unit_commands(&actions),
        vec![
            (AbilityId::Attack, Target::Tag(2), vec![11], false),
            (AbilityId::MoveMove, Target::Pos(spot), vec![11], true),
            (AbilityId::Smart, Target::Tag(3), vec![11], false),
            (AbilityId::Stop, Target::Nowhere, vec![11], false),
            (AbilityId::HoldPosition, Target::Nowhere, vec![11], false),
            (AbilityId::HarvestGather, Target::Tag(4), vec![11], false),
            (AbilityId::HarvestReturn, Target::Nowhere, vec![11], true),
            (AbilityId::Patrol, Target::Pos(spot), vec![11], false),
            (AbilityId::EffectRepair, Target::Tag(5), vec![11], false),
            (AbilityId::CancelBuildInProgress, Target::Nowhere, vec![11], false),
            (AbilityId::Lift, Target::Nowhere, vec![11], false),
            (AbilityId::Land, Target::Pos(spot), vec![11], false),
            (AbilityId::Other(1), Target::Nowhere, vec![11], false),
            (AbilityId::Other(2), Target::Pos(spot), vec![11], false),
            (AbilityId::Other(3), Target::Nowhere, vec![11], true),
        ]
    );
    assert!(matches!(&actions[15], Action::ToggleAutocast(AbilityId::Other(4), tags) if tags == &vec![11]));
}

#[test]
fn a_main_building_cancels_its_queue_with_its_own_ability() {
    let mut commander = Commander::new();
    Unit::blank(1, UnitTypeId::Nexus, Alliance::Own, Point2::new(0, 0)).cancel_queue(&mut commander, false);
    Unit::blank(2, UnitTypeId::Barracks, Alliance::Own, Point2::new(0, 0)).cancel_queue(&mut commander, false);
    assert_eq!(
        unit_commands(&commander.flush()),
        vec![
            (AbilityId::CancelQueueCancelToSelection, Target::Nowhere, vec![1], false),
            (AbilityId::CancelQueue5, Target::Nowhere, vec![2], false),
        ]
    );
}

#[test]
fn making_a_unit_needs_an_ability_that_the_rules_know() {
    let mut data = GameData::new();
    let mut depot = UnitTypeData::new(UnitTypeId::SupplyDepot, Race::Terran);
    depot.ability = Some(AbilityId::TerranBuildSupplyDepot);
    data.units.push(depot);
    data.units.push(UnitTypeData::new(UnitTypeId::Larva, Race::Zerg));
    let u = Unit::blank(1, UnitTypeId::SCV, Alliance::Own, Point2::new(0, 0));
    let mut commander = Commander::new();
    let spot = Point2::new(5, 5);
    assert!(u.build(&mut commander, UnitTypeId::SupplyDepot, spot, false, &data));
    assert!(!u.build(&mut commander, UnitTypeId::Larva, spot, false, &data));
    assert!(!u.build(&mut commander, UnitTypeId::Barracks, spot, false, &data));
    assert!(u.train(&mut commander, UnitTypeId::SupplyDepot, true, &data));
    assert!(u.build_gas(&mut commander, UnitTypeId::SupplyDepot, 33, false, &data));
    assert!(!u.train(&mut commander, UnitTypeId::Marine, true, &data));
    assert_eq!(
        unit_commands(&commander.flush()),
        vec![
            (AbilityId::TerranBuildSupplyDepot, Target::Pos(spot), vec![1], false),
            (AbilityId::TerranBuildSupplyDepot, Target::Nowhere, vec![1], true),
            (AbilityId::TerranBuildSupplyDepot, Target::Tag(33), vec![1], false),
        ]
    );
}

#[test]
fn research_uses_the_ability_of_the_upgrade() {
    let mut data = GameData::new();
    data.upgrades.push(UpgradeData {
        id: UpgradeId::LurkerRange,
        ability: AbilityId::Other(77),
        mineral_cost: 150,
        vespene_cost: 150,
        research_time: 0,
    });
    let u = Unit::blank(1, UnitTypeId::LurkerDenMP, Alliance::Own, Point2::new(0, 0));
    let mut commander = Commander::new();
    assert!(u.research(&mut commander, UpgradeId::LurkerRange, false, &data));
    assert!(!u.research(&mut commander, UpgradeId::ChitinousPlating, false, &data));
    assert!(u.research(&mut commander, UpgradeId::TerranVehicleAndShipArmorsLevel2, true, &data));
    assert_eq!(
        unit_commands(&commander.flush()),
        vec![
            (AbilityId::Other(77), Target::Nowhere, vec![1], false),
            (AbilityId::ResearchTerranVehicleAndShipPlating, Target::Nowhere, vec![1], true),
        ]
    );
}

#[test]
fn camera_moves_are_plain_actions() {
    let a = Action::CameraMove(Point3 { x: 1, y: 2, z: 3 });
    assert!(matches!(a, Action::CameraMove(p) if p.z == 3));
}
