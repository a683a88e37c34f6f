use sc2_core::ids::{BuffId, EffectId, UnitTypeId};

#[test]
fn buff_ids_come_back_from_their_numbers() {
    for id in 0..=308u32 {
        let buff = BuffId::from_u32(id).unwrap();
        assert_eq!(buff.to_u32(), id);
    }
}

#[test]
fn buff_numbers_beyond_the_last_name_no_buff() {
    assert_eq!(BuffId::from_u32(309), None);
    assert_eq!(BuffId::from_u32(u32::MAX), None);
}

#[test]
fn buff_numbers_are_the_ones_of_the_game() {
    assert_eq!(BuffId::Null.to_u32(), 0);
    assert_eq!(BuffId::GuardianShield.to_u32(), 18);
    assert_eq!(BuffId::Stimpack.to_u32(), 27);
    assert_eq!(BuffId::from_u32(24), Some(BuffId::StimpackMarauder));
    assert_eq!(BuffId::from_u32(308), Some(BuffId::RavenScramblerMissileCarrier));
}

#[test]
fn effect_ids_come_back_from_their_numbers() {
    for id in 0..=12u32 {
        assert_eq!(EffectId::from_u32(id).unwrap().to_u32(), id);
    }
    assert_eq!(EffectId::from_u32(13), None);
    assert_eq!(EffectId::from_u32(6), Some(EffectId::ScannerSweep));
    assert_eq!(EffectId::LurkerMP.to_u32(), 12);
}

#[test]
fn unit_types_are_told_apart_by_kind() {
    assert!(UnitTypeId::SCV.is_worker());
    assert!(UnitTypeId::Drone.is_worker());
    assert!(UnitTypeId::Probe.is_worker());
    assert!(!UnitTypeId::MULE.is_worker());
    assert!(UnitTypeId::Hive.is_townhall());
    assert!(UnitTypeId::OrbitalCommandFlying.is_townhall());
    assert!(!UnitTypeId::OrbitalCommandFlying.is_landed_townhall());
    assert!(UnitTypeId::Nexus.is_landed_townhall());
    assert!(UnitTypeId::ExtractorRich.is_gas_building());
    assert!(!UnitTypeId::Barracks.is_gas_building());
    assert!(UnitTypeId::BarracksTechLab.is_techlab());
    assert!(UnitTypeId::StarportReactor.is_reactor());
    assert!(UnitTypeId::Reactor.is_addon());
    assert!(!UnitTypeId::Starport.is_addon());
    assert!(UnitTypeId::MineralField450.is_mineral_field());
    assert!(UnitTypeId::RichVespeneGeyser.is_vespene_geyser());
    assert!(!UnitTypeId::VespeneGeyser.is_mineral_field());
    assert!(UnitTypeId::ChangelingZealot.is_changeling());
    assert!(UnitTypeId::WarpPrismPhasing.is_transport());
    assert!(!UnitTypeId::Overlord.is_transport());
    assert!(!UnitTypeId::Other(48).is_worker());
}
