//! Identifiers of unit types, abilities, upgrades, buffs and effects.
use vstd::prelude::*;

verus! {

/// Type of a unit, structure or resource.
///
/// The unit types that the rules of this library tell apart have a variant of
/// their own; every other one is carried as `Other` with the game's number.
#[derive(Debug, Clone, Copy, PartialEq, Eq, Structural, Hash)]
#[allow(missing_docs)]
pub enum UnitTypeId {
    Adept,
    Assimilator,
    AssimilatorRich,
    AutoTurret,
    Baneling,
    BanelingBurrowed,
    BanelingCocoon,
    BanelingNest,
    Barracks,
    BarracksReactor,
    BarracksTechLab,
    BattleStationMineralField,
    BattleStationMineralField750,
    BroodLord,
    Broodling,
    Changeling,
    ChangelingMarine,
    ChangelingMarineShield,
    ChangelingZealot,
    ChangelingZergling,
    ChangelingZerglingWings,
    Colossus,
    CommandCenter,
    CommandCenterFlying,
    Corruptor,
    Drone,
    Egg,
    EvolutionChamber,
    Extractor,
    ExtractorRich,
    Factory,
    FactoryReactor,
    FactoryTechLab,
    GreaterSpire,
    Hatchery,
    Hellion,
    HellionTank,
    Hive,
    Hydralisk,
    HydraliskDen,
    InfestationPit,
    KD8Charge,
    LabMineralField,
    LabMineralField750,
    Lair,
    Larva,
    LurkerDenMP,
    LurkerMP,
    LurkerMPBurrowed,
    MULE,
    Marine,
    Medivac,
    MineralField,
    MineralField450,
    MineralField750,
    MineralFieldOpaque,
    MineralFieldOpaque900,
    MissileTurret,
    Nexus,
    NydusNetwork,
    Observer,
    ObserverSiegeMode,
    Oracle,
    OrbitalCommand,
    OrbitalCommandFlying,
    Overlord,
    OverlordTransport,
    Overseer,
    OverseerSiegeMode,
    Phoenix,
    PhotonCannon,
    PlanetaryFortress,
    Probe,
    ProtossVespeneGeyser,
    PurifierMineralField,
    PurifierMineralField750,
    PurifierRichMineralField,
    PurifierRichMineralField750,
    PurifierVespeneGeyser,
    Ravager,
    RavagerBurrowed,
    RavagerCocoon,
    Raven,
    Reactor,
    Refinery,
    RefineryRich,
    RichMineralField,
    RichMineralField750,
    RichVespeneGeyser,
    Roach,
    RoachWarren,
    SCV,
    ShakurasVespeneGeyser,
    SiegeTankSieged,
    SpacePlatformGeyser,
    SpawningPool,
    SpineCrawler,
    Spire,
    SporeCrawler,
    Starport,
    StarportReactor,
    StarportTechLab,
    SupplyDepot,
    TechLab,
    TerranGhost,
    Ultralisk,
    UltraliskBurrowed,
    UltraliskCavern,
    VespeneGeyser,
    WarpPrism,
    WarpPrismPhasing,
    XelNagaTower,
    Zergling,
    ZerglingBurrowed,
    Other(u32),
}

impl UnitTypeId {
    /// Workers gather resources and build; MULEs are not counted among them.
    pub open spec fn spec_is_worker(self) -> bool {
        self == UnitTypeId::SCV || self == UnitTypeId::Drone || self == UnitTypeId::Probe
    }

    /// Checks if the type is a worker.
    #[verifier::when_used_as_spec(spec_is_worker)]
    pub fn is_worker(self) -> (r: bool)
        ensures
            r == self.spec_is_worker(),
    {
        matches!(self, UnitTypeId::SCV | UnitTypeId::Drone | UnitTypeId::Probe)
    }

    /// Main buildings that stand on the ground and mark a base as taken.
    pub open spec fn spec_is_landed_townhall(self) -> bool {
        self == UnitTypeId::CommandCenter || self == UnitTypeId::OrbitalCommand
            || self == UnitTypeId::PlanetaryFortress || self == UnitTypeId::Hatchery
            || self == UnitTypeId::Lair || self == UnitTypeId::Hive || self == UnitTypeId::Nexus
    }

    /// Checks if the type is a main building standing on the ground.
    #[verifier::when_used_as_spec(spec_is_landed_townhall)]
    pub fn is_landed_townhall(self) -> (r: bool)
        ensures
            r == self.spec_is_landed_townhall(),
    {
        matches!(
            self,
            UnitTypeId::CommandCenter | UnitTypeId::OrbitalCommand | UnitTypeId::PlanetaryFortress
                | UnitTypeId::Hatchery | UnitTypeId::Lair | UnitTypeId::Hive | UnitTypeId::Nexus
        )
    }

    /// Main buildings, landed or lifted off.
    pub open spec fn spec_is_townhall(self) -> bool {
        self.spec_is_landed_townhall() || self == UnitTypeId::CommandCenterFlying
            || self == UnitTypeId::OrbitalCommandFlying
    }

    /// Checks if the type is a main building.
    #[verifier::when_used_as_spec(spec_is_townhall)]
    pub fn is_townhall(self) -> (r: bool)
        ensures
            r == self.spec_is_townhall(),
    {
        self.is_landed_townhall() || matches!(
            self,
            UnitTypeId::CommandCenterFlying | UnitTypeId::OrbitalCommandFlying
        )
    }

    /// Buildings that harvest a vespene geyser.
    pub open spec fn spec_is_gas_building(self) -> bool {
        self == UnitTypeId::Refinery || self == UnitTypeId::RefineryRich
            || self == UnitTypeId::Assimilator || self == UnitTypeId::AssimilatorRich
            || self == UnitTypeId::Extractor || self == UnitTypeId::ExtractorRich
    }

    /// Checks if the type is a building that harvests a geyser.
    #[verifier::when_used_as_spec(spec_is_gas_building)]
    pub fn is_gas_building(self) -> (r: bool)
        ensures
            r == self.spec_is_gas_building(),
    {
        matches!(
            self,
            UnitTypeId::Refinery | UnitTypeId::RefineryRich | UnitTypeId::Assimilator
                | UnitTypeId::AssimilatorRich | UnitTypeId::Extractor | UnitTypeId::ExtractorRich
        )
    }

    /// Tech labs, alone or attached to a production building.
    pub open spec fn spec_is_techlab(self) -> bool {
        self == UnitTypeId::TechLab || self == UnitTypeId::BarracksTechLab
            || self == UnitTypeId::FactoryTechLab || self == UnitTypeId::StarportTechLab
    }

    /// Checks if the type is a tech lab.
    #[verifier::when_used_as_spec(spec_is_techlab)]
    pub fn is_techlab(self) -> (r: bool)
        ensures
            r == self.spec_is_techlab(),
    {
        matches!(
            self,
            UnitTypeId::TechLab | UnitTypeId::BarracksTechLab | UnitTypeId::FactoryTechLab
                | UnitTypeId::StarportTechLab
        )
    }

    /// Reactors, alone or attached to a production building.
    pub open spec fn spec_is_reactor(self) -> bool {
        self == UnitTypeId::Reactor || self == UnitTypeId::BarracksReactor
            || self == UnitTypeId::FactoryReactor || self == UnitTypeId::StarportReactor
    }

    /// Checks if the type is a reactor.
    #[verifier::when_used_as_spec(spec_is_reactor)]
    pub fn is_reactor(self) -> (r: bool)
        ensures
            r == self.spec_is_reactor(),
    {
        matches!(
            self,
            UnitTypeId::Reactor | UnitTypeId::BarracksReactor | UnitTypeId::FactoryReactor
                | UnitTypeId::StarportReactor
        )
    }

    /// Add-ons of terran production buildings.
    pub open spec fn spec_is_addon(self) -> bool {
        self.spec_is_techlab() || self.spec_is_reactor()
    }

    /// Checks if the type is an add-on.
    #[verifier::when_used_as_spec(spec_is_addon)]
    pub fn is_addon(self) -> (r: bool)
        ensures
            r == self.spec_is_addon(),
    {
        self.is_techlab() || self.is_reactor()
    }

    /// Mineral fields of every look and yield.
    pub open spec fn spec_is_mineral_field(self) -> bool {
        self == UnitTypeId::RichMineralField || self == UnitTypeId::RichMineralField750
            || self == UnitTypeId::MineralField || self == UnitTypeId::MineralField450
            || self == UnitTypeId::MineralField750 || self == UnitTypeId::LabMineralField
            || self == UnitTypeId::LabMineralField750 || self == UnitTypeId::PurifierRichMineralField
            || self == UnitTypeId::PurifierRichMineralField750
            || self == UnitTypeId::PurifierMineralField
            || self == UnitTypeId::PurifierMineralField750
            || self == UnitTypeId::BattleStationMineralField
            || self == UnitTypeId::BattleStationMineralField750
            || self == UnitTypeId::MineralFieldOpaque || self == UnitTypeId::MineralFieldOpaque900
    }

    /// Checks if the type is a mineral field.
    #[verifier::when_used_as_spec(spec_is_mineral_field)]
    pub fn is_mineral_field(self) -> (r: bool)
        ensures
            r == self.spec_is_mineral_field(),
    {
        matches!(
            self,
            UnitTypeId::RichMineralField | UnitTypeId::RichMineralField750
                | UnitTypeId::MineralField | UnitTypeId::MineralField450
                | UnitTypeId::MineralField750 | UnitTypeId::LabMineralField
                | UnitTypeId::LabMineralField750 | UnitTypeId::PurifierRichMineralField
                | UnitTypeId::PurifierRichMineralField750 | UnitTypeId::PurifierMineralField
                | UnitTypeId::PurifierMineralField750 | UnitTypeId::BattleStationMineralField
                | UnitTypeId::BattleStationMineralField750 | UnitTypeId::MineralFieldOpaque
                | UnitTypeId::MineralFieldOpaque900
        )
    }

    /// Vespene geysers of every look.
    pub open spec fn spec_is_vespene_geyser(self) -> bool {
        self == UnitTypeId::VespeneGeyser || self == UnitTypeId::SpacePlatformGeyser
            || self == UnitTypeId::RichVespeneGeyser || self == UnitTypeId::ProtossVespeneGeyser
            || self == UnitTypeId::PurifierVespeneGeyser
            || self == UnitTypeId::ShakurasVespeneGeyser
    }

    /// Checks if the type is a vespene geyser.
    #[verifier::when_used_as_spec(spec_is_vespene_geyser)]
    pub fn is_vespene_geyser(self) -> (r: bool)
        ensures
            r == self.spec_is_vespene_geyser(),
    {
        matches!(
            self,
            UnitTypeId::VespeneGeyser | UnitTypeId::SpacePlatformGeyser
                | UnitTypeId::RichVespeneGeyser | UnitTypeId::ProtossVespeneGeyser
                | UnitTypeId::PurifierVespeneGeyser | UnitTypeId::ShakurasVespeneGeyser
        )
    }

    /// The disguises a changeling can wear.
    pub open spec fn spec_is_changeling(self) -> bool {
        self == UnitTypeId::Changeling || self == UnitTypeId::ChangelingZealot
            || self == UnitTypeId::ChangelingMarineShield || self == UnitTypeId::ChangelingMarine
            || self == UnitTypeId::ChangelingZerglingWings
            || self == UnitTypeId::ChangelingZergling
    }

    /// Checks if the type is a changeling in any disguise.
    #[verifier::when_used_as_spec(spec_is_changeling)]
    pub fn is_changeling(self) -> (r: bool)
        ensures
            r == self.spec_is_changeling(),
    {
        matches!(
            self,
            UnitTypeId::Changeling | UnitTypeId::ChangelingZealot
                | UnitTypeId::ChangelingMarineShield | UnitTypeId::ChangelingMarine
                | UnitTypeId::ChangelingZerglingWings | UnitTypeId::ChangelingZergling
        )
    }

    /// Units that carry others: a unit next to one may have been picked up.
    pub open spec fn spec_is_transport(self) -> bool {
        self == UnitTypeId::Medivac || self == UnitTypeId::WarpPrism
            || self == UnitTypeId::WarpPrismPhasing || self == UnitTypeId::OverlordTransport
    }

    /// Checks if the type is a transport.
    #[verifier::when_used_as_spec(spec_is_transport)]
    pub fn is_transport(self) -> (r: bool)
        ensures
            r == self.spec_is_transport(),
    {
        matches!(
            self,
            UnitTypeId::Medivac | UnitTypeId::WarpPrism | UnitTypeId::WarpPrismPhasing
                | UnitTypeId::OverlordTransport
        )
    }
}

/// Ability that a unit can be ordered to use.
///
/// The abilitys that the rules of this library tell apart have a variant of
/// their own; every other one is carried as `Other` with the game's number.
#[derive(Debug, Clone, Copy, PartialEq, Eq, Structural, Hash)]
#[allow(missing_docs)]
pub enum AbilityId {
    Attack,
    AttackAttack,
    AttackAttackBarrage,
    AttackAttackTowards,
    BuildReactorBarracks,
    BuildReactorFactory,
    BuildReactorStarport,
    BuildTechLabBarracks,
    BuildTechLabFactory,
    BuildTechLabStarport,
    CancelBuildInProgress,
    CancelQueue5,
    CancelQueueCancelToSelection,
    EffectGhostSnipe,
    EffectRepair,
    EffectRepairMule,
    EffectRepairSCV,
    HarvestGather,
    HarvestGatherDrone,
    HarvestGatherMule,
    HarvestGatherProbe,
    HarvestGatherSCV,
    HarvestReturn,
    HarvestReturnDrone,
    HarvestReturnMule,
    HarvestReturnProbe,
    HarvestReturnSCV,
    HoldPosition,
    Land,
    Lift,
    MoveMove,
    Patrol,
    ResearchTerranVehicleAndShipPlating,
    ScanMove,
    Smart,
    Stop,
    TerranBuildSupplyDepot,
    Other(u32),
}

/// Upgrade that a player can research.
///
/// The upgrades that the rules of this library tell apart have a variant of
/// their own; every other one is carried as `Other` with the game's number.
#[derive(Debug, Clone, Copy, PartialEq, Eq, Structural, Hash)]
#[allow(missing_docs)]
pub enum UpgradeId {
    AdeptPiercingAttack,
    ChitinousPlating,
    EvolveGroovedSpines,
    ExtendedThermalLance,
    HiSecAutoTracking,
    HighCapacityBarrels,
    LurkerRange,
    PhoenixRangeUpgrade,
    TerranBuildingArmor,
    TerranVehicleAndShipArmorsLevel1,
    TerranVehicleAndShipArmorsLevel2,
    TerranVehicleAndShipArmorsLevel3,
    Zerglingattackspeed,
    Other(u32),
}

/// Buff that a unit can carry.
#[derive(Debug, Clone, Copy, PartialEq, Eq, Structural, Hash)]
#[allow(missing_docs)]
pub enum BuffId {
    Null,
    Radar25,
    Tauntb,
    DisableAbils,
    TransientMorph,
    GravitonBeam,
    GhostCloak,
    BansheeCloak,
    PowerUserWarpable,
    VortexBehaviorEnemy,
    Corruption,
    QueenSpawnLarvaTimer,
    GhostHoldFire,
    GhostHoldFireB,
    Leech,
    LeechDisableAbilities,
    EMPDecloak,
    FungalGrowth,
    GuardianShield,
    SeekerMissileTimeout,
    TimeWarpProduction,
    Ethereal,
    NeuralParasite,
    NeuralParasiteWait,
    StimpackMarauder,
    SupplyDrop,
    _250mmStrikeCannons,
    Stimpack,
    PsiStorm,
    CloakFieldEffect,
    Charging,
    AIDangerBuff,
    VortexBehavior,
    Slow,
    TemporalRiftUnit,
    SheepBusy,
    Contaminated,
    TimeScaleConversionBehavior,
    BlindingCloudStructure,
    CollapsibleRockTowerConjoinedSearch,
    CollapsibleRockTowerRampDiagonalConjoinedSearch,
    CollapsibleTerranTowerConjoinedSearch,
    CollapsibleTerranTowerRampDiagonalConjoinedSearch,
    DigesterCreepSprayVision,
    InvulnerabilityShield,
    MineDroneCountdown,
    MothershipStasis,
    MothershipStasisCaster,
    MothershipCoreEnergizeVisual,
    OracleRevelation,
    GhostSnipeDoT,
    NexusPhaseShift,
    NexusInvulnerability,
    RoughTerrainSearch,
    RoughTerrainSlow,
    OracleCloakField,
    OracleCloakFieldEffect,
    ScryerFriendly,
    SpectreShield,
    ViperConsumeStructure,
    RestoreShields,
    MercenaryCycloneMissiles,
    MercenarySensorDish,
    MercenaryShield,
    Scryer,
    StunRoundInitialBehavior,
    BuildingShield,
    LaserSight,
    ProtectiveBarrier,
    CorruptorGroundAttackDebuff,
    BattlecruiserAntiAirDisable,
    BuildingStasis,
    Stasis,
    ResourceStun,
    MaximumThrust,
    ChargeUp,
    CloakUnit,
    NullField,
    Rescue,
    Benign,
    LaserTargeting,
    Engage,
    CapResource,
    BlindingCloud,
    DoomDamageDelay,
    EyeStalk,
    BurrowCharge,
    Hidden,
    MineDroneDOT,
    MedivacSpeedBoost,
    ExtendBridgeExtendingBridgeNEWide8Out,
    ExtendBridgeExtendingBridgeNWWide8Out,
    ExtendBridgeExtendingBridgeNEWide10Out,
    ExtendBridgeExtendingBridgeNWWide10Out,
    ExtendBridgeExtendingBridgeNEWide12Out,
    ExtendBridgeExtendingBridgeNWWide12Out,
    PhaseShield,
    Purify,
    VoidSiphon,
    OracleWeapon,
    AntiAirWeaponSwitchCooldown,
    ArbiterMPStasisField,
    ImmortalOverload,
    CloakingFieldTargeted,
    LightningBomb,
    OraclePhaseShift,
    ReleaseInterceptorsCooldown,
    ReleaseInterceptorsTimedLifeWarning,
    ReleaseInterceptorsWanderDelay,
    ReleaseInterceptorsBeacon,
    ArbiterMPCloakFieldEffect,
    PurificationNova,
    CorruptionBombDamage,
    CorsairMPDisruptionWeb,
    DisruptorPush,
    LightofAiur,
    LockOn,
    Overcharge,
    OverchargeDamage,
    OverchargeSpeedBoost,
    SeekerMissile,
    TemporalField,
    VoidRaySwarmDamageBoost,
    VoidMPImmortalReviveSupressed,
    DevourerMPAcidSpores,
    DefilerMPConsume,
    DefilerMPDarkSwarm,
    DefilerMPPlague,
    QueenMPEnsnare,
    OracleStasisTrapTarget,
    SelfRepair,
    AggressiveMutation,
    ParasiticBomb,
    ParasiticBombUnitKU,
    ParasiticBombSecondaryUnitSearch,
    AdeptDeathCheck,
    LurkerHoldFire,
    LurkerHoldFireB,
    TimeStopStun,
    SlaynElementalGrabStun,
    PurificationNovaPost,
    DisableInterceptors,
    BypassArmorDebuffOne,
    BypassArmorDebuffTwo,
    BypassArmorDebuffThree,
    ChannelSnipeCombat,
    TempestDisruptionBlastStunBehavior,
    GravitonPrison,
    InfestorDisease,
    SSLightningProjector,
    PurifierPlanetCrackerCharge,
    SpectreCloaking,
    WraithCloak,
    PsytrousOxide,
    BansheeCloakCrossSpectrumDampeners,
    SSBattlecruiserHunterSeekerTimeout,
    SSStrongerEnemyBuff,
    SSTerraTronArmMissileTargetCheck,
    SSMissileTimeout,
    SSLeviathanBombCollisionCheck,
    SSLeviathanBombExplodeTimer,
    SSLeviathanBombMissileTargetCheck,
    SSTerraTronCollisionCheck,
    SSCarrierBossCollisionCheck,
    SSCorruptorMissileTargetCheck,
    SSInvulnerable,
    SSLeviathanTentacleMissileTargetCheck,
    SSLeviathanTentacleMissileTargetCheckInverted,
    SSLeviathanTentacleTargetDeathDelay,
    SSLeviathanTentacleMissileScanSwapDelay,
    SSPowerUpDiagonal2,
    SSBattlecruiserCollisionCheck,
    SSTerraTronMissileSpinnerMissileLauncher,
    SSTerraTronMissileSpinnerCollisionCheck,
    SSTerraTronMissileLauncher,
    SSBattlecruiserMissileLauncher,
    SSTerraTronStun,
    SSVikingRespawn,
    SSWraithCollisionCheck,
    SSScourgeMissileTargetCheck,
    SSScourgeDeath,
    SSSwarmGuardianCollisionCheck,
    SSFighterBombMissileDeath,
    SSFighterDroneDamageResponse,
    SSInterceptorCollisionCheck,
    SSCarrierCollisionCheck,
    SSMissileTargetCheckVikingDrone,
    SSMissileTargetCheckVikingStrong1,
    SSMissileTargetCheckVikingStrong2,
    SSPowerUpHealth1,
    SSPowerUpHealth2,
    SSPowerUpStrong,
    SSPowerupMorphToBomb,
    SSPowerupMorphToHealth,
    SSPowerupMorphToSideMissiles,
    SSPowerupMorphToStrongerMissiles,
    SSCorruptorCollisionCheck,
    SSScoutCollisionCheck,
    SSPhoenixCollisionCheck,
    SSScourgeCollisionCheck,
    SSLeviathanCollisionCheck,
    SSScienceVesselCollisionCheck,
    SSTerraTronSawCollisionCheck,
    SSLightningProjectorCollisionCheck,
    ShiftDelay,
    BioStasis,
    PersonalCloakingFree,
    EMPDrain,
    MindBlastStun,
    _330mmBarrageCannons,
    VoodooShield,
    SpectreCloakingFree,
    UltrasonicPulseStun,
    Irradiate,
    NydusWormLavaInstantDeath,
    PredatorCloaking,
    PsiDisruption,
    MindControl,
    QueenKnockdown,
    ScienceVesselCloakField,
    SporeCannonMissile,
    ArtanisTemporalRiftUnit,
    ArtanisCloakingFieldEffect,
    ArtanisVortexBehavior,
    Incapacitated,
    KarassPsiStorm,
    DutchMarauderSlow,
    JumpStompStun,
    JumpStompFStun,
    RaynorMissileTimedLife,
    PsionicShockwaveHeightAndStun,
    ShadowClone,
    AutomatedRepair,
    Slimed,
    RaynorTimeBombMissile,
    RaynorTimeBombUnit,
    TychusCommandoStimPack,
    ViralPlasma,
    Napalm,
    BurstCapacitorsDamageBuff,
    ColonyInfestation,
    Domination,
    EMPBurst,
    HybridCZergyRoots,
    HybridFZergyRoots,
    LockdownB,
    SpectreLockdownB,
    VoodooLockdown,
    ZeratulStun,
    BuildingScarab,
    VortexBehaviorEradicator,
    GhostBlast,
    HeroicBuff03,
    CannonRadar,
    SSMissileTargetCheckViking,
    SSMissileTargetCheck,
    SSMaxSpeed,
    SSMaxAcceleration,
    SSPowerUpDiagonal1,
    Water,
    DefensiveMatrix,
    TestAttribute,
    TestVeterancy,
    ShredderSwarmDamageApply,
    CorruptorInfesting,
    MercGroundDropDelay,
    MercGroundDrop,
    MercAirDropDelay,
    SpectreHoldFire,
    SpectreHoldFireB,
    ItemGravityBombs,
    CarryMineralFieldMinerals,
    CarryHighYieldMineralFieldMinerals,
    CarryHarvestableVespeneGeyserGas,
    CarryHarvestableVespeneGeyserGasProtoss,
    CarryHarvestableVespeneGeyserGasZerg,
    PermanentlyCloaked,
    RavenScramblerMissile,
    RavenShredderMissileTimeout,
    RavenShredderMissileTint,
    RavenShredderMissileArmorReduction,
    ChronoBoostEnergyCost,
    NexusShieldRechargeOnPylonBehavior,
    NexusShieldRechargeOnPylonBehaviorSecondaryOnTarget,
    InfestorEnsnare,
    InfestorEnsnareMakePrecursorReheightSource,
    NexusShieldOvercharge,
    ParasiticBombDelayTimedLife,
    Transfusion,
    AccelerationZoneTemporalField,
    AccelerationZoneFlyingTemporalField,
    InhibitorZoneFlyingTemporalField,
    DummyBuff000,
    InhibitorZoneTemporalField,
    ResonatingGlaivesPhaseShift,
    NeuralParasiteChildren,
    AmorphousArmorcloud,
    RavenShredderMissileArmorReductionUISubtruct,
    BatteryOvercharge,
    DummyBuff001,
    DummyBuff002,
    DummyBuff003,
    DummyBuff004,
    DummyBuff005,
    OnCreepQueen,
    LoadOutSprayTracker,
    CloakField,
    TakenDamage,
    RavenScramblerMissileCarrier,
}

impl BuffId {
    /// The number by which the game names this buff.
    pub open spec fn code(self) -> u32 {
        match self {
            BuffId::Null => 0,
            BuffId::Radar25 => 1,
            BuffId::Tauntb => 2,
            BuffId::DisableAbils => 3,
            BuffId::TransientMorph => 4,
            BuffId::GravitonBeam => 5,
            BuffId::GhostCloak => 6,
            BuffId::BansheeCloak => 7,
            BuffId::PowerUserWarpable => 8,
            BuffId::VortexBehaviorEnemy => 9,
            BuffId::Corruption => 10,
            BuffId::QueenSpawnLarvaTimer => 11,
            BuffId::GhostHoldFire => 12,
            BuffId::GhostHoldFireB => 13,
            BuffId::Leech => 14,
            BuffId::LeechDisableAbilities => 15,
            BuffId::EMPDecloak => 16,
            BuffId::FungalGrowth => 17,
            BuffId::GuardianShield => 18,
            BuffId::SeekerMissileTimeout => 19,
            BuffId::TimeWarpProduction => 20,
            BuffId::Ethereal => 21,
            BuffId::NeuralParasite => 22,
            BuffId::NeuralParasiteWait => 23,
            BuffId::StimpackMarauder => 24,
            BuffId::SupplyDrop => 25,
            BuffId::_250mmStrikeCannons => 26,
            BuffId::Stimpack => 27,
            BuffId::PsiStorm => 28,
            BuffId::CloakFieldEffect => 29,
            BuffId::Charging => 30,
            BuffId::AIDangerBuff => 31,
            BuffId::VortexBehavior => 32,
            BuffId::Slow => 33,
            BuffId::TemporalRiftUnit => 34,
            BuffId::SheepBusy => 35,
            BuffId::Contaminated => 36,
            BuffId::TimeScaleConversionBehavior => 37,
            BuffId::BlindingCloudStructure => 38,
            BuffId::CollapsibleRockTowerConjoinedSearch => 39,
            BuffId::CollapsibleRockTowerRampDiagonalConjoinedSearch => 40,
            BuffId::CollapsibleTerranTowerConjoinedSearch => 41,
            BuffId::CollapsibleTerranTowerRampDiagonalConjoinedSearch => 42,
            BuffId::DigesterCreepSprayVision => 43,
            BuffId::InvulnerabilityShield => 44,
            BuffId::MineDroneCountdown => 45,
            BuffId::MothershipStasis => 46,
            BuffId::MothershipStasisCaster => 47,
            BuffId::MothershipCoreEnergizeVisual => 48,
            BuffId::OracleRevelation => 49,
            BuffId::GhostSnipeDoT => 50,
            BuffId::NexusPhaseShift => 51,
            BuffId::NexusInvulnerability => 52,
            BuffId::RoughTerrainSearch => 53,
            BuffId::RoughTerrainSlow => 54,
            BuffId::OracleCloakField => 55,
            BuffId::OracleCloakFieldEffect => 56,
            BuffId::ScryerFriendly => 57,
            BuffId::SpectreShield => 58,
            BuffId::ViperConsumeStructure => 59,
            BuffId::RestoreShields => 60,
            BuffId::MercenaryCycloneMissiles => 61,
            BuffId::MercenarySensorDish => 62,
            BuffId::MercenaryShield => 63,
            BuffId::Scryer => 64,
            BuffId::StunRoundInitialBehavior => 65,
            BuffId::BuildingShield => 66,
            BuffId::LaserSight => 67,
            BuffId::ProtectiveBarrier => 68,
            BuffId::CorruptorGroundAttackDebuff => 69,
            BuffId::BattlecruiserAntiAirDisable => 70,
            BuffId::BuildingStasis => 71,
            BuffId::Stasis => 72,
            BuffId::ResourceStun => 73,
            BuffId::MaximumThrust => 74,
            BuffId::ChargeUp => 75,
            BuffId::CloakUnit => 76,
            BuffId::NullField => 77,
            BuffId::Rescue => 78,
            BuffId::Benign => 79,
            BuffId::LaserTargeting => 80,
            BuffId::Engage => 81,
            BuffId::CapResource => 82,
            BuffId::BlindingCloud => 83,
            BuffId::DoomDamageDelay => 84,
            BuffId::EyeStalk => 85,
            BuffId::BurrowCharge => 86,
            BuffId::Hidden => 87,
            BuffId::MineDroneDOT => 88,
            BuffId::MedivacSpeedBoost => 89,
            BuffId::ExtendBridgeExtendingBridgeNEWide8Out => 90,
            BuffId::ExtendBridgeExtendingBridgeNWWide8Out => 91,
            BuffId::ExtendBridgeExtendingBridgeNEWide10Out => 92,
            BuffId::ExtendBridgeExtendingBridgeNWWide10Out => 93,
            BuffId::ExtendBridgeExtendingBridgeNEWide12Out => 94,
            BuffId::ExtendBridgeExtendingBridgeNWWide12Out => 95,
            BuffId::PhaseShield => 96,
            BuffId::Purify => 97,
            BuffId::VoidSiphon => 98,
            BuffId::OracleWeapon => 99,
            BuffId::AntiAirWeaponSwitchCooldown => 100,
            BuffId::ArbiterMPStasisField => 101,
            BuffId::ImmortalOverload => 102,
            BuffId::CloakingFieldTargeted => 103,
            BuffId::LightningBomb => 104,
            BuffId::OraclePhaseShift => 105,
            BuffId::ReleaseInterceptorsCooldown => 106,
            BuffId::ReleaseInterceptorsTimedLifeWarning => 107,
            BuffId::ReleaseInterceptorsWanderDelay => 108,
            BuffId::ReleaseInterceptorsBeacon => 109,
            BuffId::ArbiterMPCloakFieldEffect => 110,
            BuffId::PurificationNova => 111,
            BuffId::CorruptionBombDamage => 112,
            BuffId::CorsairMPDisruptionWeb => 113,
            BuffId::DisruptorPush => 114,
            BuffId::LightofAiur => 115,
            BuffId::LockOn => 116,
            BuffId::Overcharge => 117,
            BuffId::OverchargeDamage => 118,
            BuffId::OverchargeSpeedBoost => 119,
            BuffId::SeekerMissile => 120,
            BuffId::TemporalField => 121,
            BuffId::VoidRaySwarmDamageBoost => 122,
            BuffId::VoidMPImmortalReviveSupressed => 123,
            BuffId::DevourerMPAcidSpores => 124,
            BuffId::DefilerMPConsume => 125,
            BuffId::DefilerMPDarkSwarm => 126,
            BuffId::DefilerMPPlague => 127,
            BuffId::QueenMPEnsnare => 128,
            BuffId::OracleStasisTrapTarget => 129,
            BuffId::SelfRepair => 130,
            BuffId::AggressiveMutation => 131,
            BuffId::ParasiticBomb => 132,
            BuffId::ParasiticBombUnitKU => 133,
            BuffId::ParasiticBombSecondaryUnitSearch => 134,
            BuffId::AdeptDeathCheck => 135,
            BuffId::LurkerHoldFire => 136,
            BuffId::LurkerHoldFireB => 137,
            BuffId::TimeStopStun => 138,
            BuffId::SlaynElementalGrabStun => 139,
            BuffId::PurificationNovaPost => 140,
            BuffId::DisableInterceptors => 141,
            BuffId::BypassArmorDebuffOne => 142,
            BuffId::BypassArmorDebuffTwo => 143,
            BuffId::BypassArmorDebuffThree => 144,
            BuffId::ChannelSnipeCombat => 145,
            BuffId::TempestDisruptionBlastStunBehavior => 146,
            BuffId::GravitonPrison => 147,
            BuffId::InfestorDisease => 148,
            BuffId::SSLightningProjector => 149,
            BuffId::PurifierPlanetCrackerCharge => 150,
            BuffId::SpectreCloaking => 151,
            BuffId::WraithCloak => 152,
            BuffId::PsytrousOxide => 153,
            BuffId::BansheeCloakCrossSpectrumDampeners => 154,
            BuffId::SSBattlecruiserHunterSeekerTimeout => 155,
            BuffId::SSStrongerEnemyBuff => 156,
            BuffId::SSTerraTronArmMissileTargetCheck => 157,
            BuffId::SSMissileTimeout => 158,
            BuffId::SSLeviathanBombCollisionCheck => 159,
            BuffId::SSLeviathanBombExplodeTimer => 160,
            BuffId::SSLeviathanBombMissileTargetCheck => 161,
            BuffId::SSTerraTronCollisionCheck => 162,
            BuffId::SSCarrierBossCollisionCheck => 163,
            BuffId::SSCorruptorMissileTargetCheck => 164,
            BuffId::SSInvulnerable => 165,
            BuffId::SSLeviathanTentacleMissileTargetCheck => 166,
            BuffId::SSLeviathanTentacleMissileTargetCheckInverted => 167,
            BuffId::SSLeviathanTentacleTargetDeathDelay => 168,
            BuffId::SSLeviathanTentacleMissileScanSwapDelay => 169,
            BuffId::SSPowerUpDiagonal2 => 170,
            BuffId::SSBattlecruiserCollisionCheck => 171,
            BuffId::SSTerraTronMissileSpinnerMissileLauncher => 172,
            BuffId::SSTerraTronMissileSpinnerCollisionCheck => 173,
            BuffId::SSTerraTronMissileLauncher => 174,
            BuffId::SSBattlecruiserMissileLauncher => 175,
            BuffId::SSTerraTronStun => 176,
            BuffId::SSVikingRespawn => 177,
            BuffId::SSWraithCollisionCheck => 178,
            BuffId::SSScourgeMissileTargetCheck => 179,
            BuffId::SSScourgeDeath => 180,
            BuffId::SSSwarmGuardianCollisionCheck => 181,
            BuffId::SSFighterBombMissileDeath => 182,
            BuffId::SSFighterDroneDamageResponse => 183,
            BuffId::SSInterceptorCollisionCheck => 184,
            BuffId::SSCarrierCollisionCheck => 185,
            BuffId::SSMissileTargetCheckVikingDrone => 186,
            BuffId::SSMissileTargetCheckVikingStrong1 => 187,
            BuffId::SSMissileTargetCheckVikingStrong2 => 188,
            BuffId::SSPowerUpHealth1 => 189,
            BuffId::SSPowerUpHealth2 => 190,
            BuffId::SSPowerUpStrong => 191,
            BuffId::SSPowerupMorphToBomb => 192,
            BuffId::SSPowerupMorphToHealth => 193,
            BuffId::SSPowerupMorphToSideMissiles => 194,
            BuffId::SSPowerupMorphToStrongerMissiles => 195,
            BuffId::SSCorruptorCollisionCheck => 196,
            BuffId::SSScoutCollisionCheck => 197,
            BuffId::SSPhoenixCollisionCheck => 198,
            BuffId::SSScourgeCollisionCheck => 199,
            BuffId::SSLeviathanCollisionCheck => 200,
            BuffId::SSScienceVesselCollisionCheck => 201,
            BuffId::SSTerraTronSawCollisionCheck => 202,
            BuffId::SSLightningProjectorCollisionCheck => 203,
            BuffId::ShiftDelay => 204,
            BuffId::BioStasis => 205,
            BuffId::PersonalCloakingFree => 206,
            BuffId::EMPDrain => 207,
            BuffId::MindBlastStun => 208,
            BuffId::_330mmBarrageCannons => 209,
            BuffId::VoodooShield => 210,
            BuffId::SpectreCloakingFree => 211,
            BuffId::UltrasonicPulseStun => 212,
            BuffId::Irradiate => 213,
            BuffId::NydusWormLavaInstantDeath => 214,
            BuffId::PredatorCloaking => 215,
            BuffId::PsiDisruption => 216,
            BuffId::MindControl => 217,
            BuffId::QueenKnockdown => 218,
            BuffId::ScienceVesselCloakField => 219,
            BuffId::SporeCannonMissile => 220,
            BuffId::ArtanisTemporalRiftUnit => 221,
            BuffId::ArtanisCloakingFieldEffect => 222,
            BuffId::ArtanisVortexBehavior => 223,
            BuffId::Incapacitated => 224,
            BuffId::KarassPsiStorm => 225,
            BuffId::DutchMarauderSlow => 226,
            BuffId::JumpStompStun => 227,
            BuffId::JumpStompFStun => 228,
            BuffId::RaynorMissileTimedLife => 229,
            BuffId::PsionicShockwaveHeightAndStun => 230,
            BuffId::ShadowClone => 231,
            BuffId::AutomatedRepair => 232,
            BuffId::Slimed => 233,
            BuffId::RaynorTimeBombMissile => 234,
            BuffId::RaynorTimeBombUnit => 235,
            BuffId::TychusCommandoStimPack => 236,
            BuffId::ViralPlasma => 237,
            BuffId::Napalm => 238,
            BuffId::BurstCapacitorsDamageBuff => 239,
            BuffId::ColonyInfestation => 240,
            BuffId::Domination => 241,
            BuffId::EMPBurst => 242,
            BuffId::HybridCZergyRoots => 243,
            BuffId::HybridFZergyRoots => 244,
            BuffId::LockdownB => 245,
            BuffId::SpectreLockdownB => 246,
            BuffId::VoodooLockdown => 247,
            BuffId::ZeratulStun => 248,
            BuffId::BuildingScarab => 249,
            BuffId::VortexBehaviorEradicator => 250,
            BuffId::GhostBlast => 251,
            BuffId::HeroicBuff03 => 252,
            BuffId::CannonRadar => 253,
            BuffId::SSMissileTargetCheckViking => 254,
            BuffId::SSMissileTargetCheck => 255,
            BuffId::SSMaxSpeed => 256,
            BuffId::SSMaxAcceleration => 257,
            BuffId::SSPowerUpDiagonal1 => 258,
            BuffId::Water => 259,
            BuffId::DefensiveMatrix => 260,
            BuffId::TestAttribute => 261,
            BuffId::TestVeterancy => 262,
            BuffId::ShredderSwarmDamageApply => 263,
            BuffId::CorruptorInfesting => 264,
            BuffId::MercGroundDropDelay => 265,
            BuffId::MercGroundDrop => 266,
            BuffId::MercAirDropDelay => 267,
            BuffId::SpectreHoldFire => 268,
            BuffId::SpectreHoldFireB => 269,
            BuffId::ItemGravityBombs => 270,
            BuffId::CarryMineralFieldMinerals => 271,
            BuffId::CarryHighYieldMineralFieldMinerals => 272,
            BuffId::CarryHarvestableVespeneGeyserGas => 273,
            BuffId::CarryHarvestableVespeneGeyserGasProtoss => 274,
            BuffId::CarryHarvestableVespeneGeyserGasZerg => 275,
            BuffId::PermanentlyCloaked => 276,
            BuffId::RavenScramblerMissile => 277,
            BuffId::RavenShredderMissileTimeout => 278,
            BuffId::RavenShredderMissileTint => 279,
            BuffId::RavenShredderMissileArmorReduction => 280,
            BuffId::ChronoBoostEnergyCost => 281,
            BuffId::NexusShieldRechargeOnPylonBehavior => 282,
            BuffId::NexusShieldRechargeOnPylonBehaviorSecondaryOnTarget => 283,
            BuffId::InfestorEnsnare => 284,
            BuffId::InfestorEnsnareMakePrecursorReheightSource => 285,
            BuffId::NexusShieldOvercharge => 286,
            BuffId::ParasiticBombDelayTimedLife => 287,
            BuffId::Transfusion => 288,
            BuffId::AccelerationZoneTemporalField => 289,
            BuffId::AccelerationZoneFlyingTemporalField => 290,
            BuffId::InhibitorZoneFlyingTemporalField => 291,
            BuffId::DummyBuff000 => 292,
            BuffId::InhibitorZoneTemporalField => 293,
            BuffId::ResonatingGlaivesPhaseShift => 294,
            BuffId::NeuralParasiteChildren => 295,
            BuffId::AmorphousArmorcloud => 296,
            BuffId::RavenShredderMissileArmorReductionUISubtruct => 297,
            BuffId::BatteryOvercharge => 298,
            BuffId::DummyBuff001 => 299,
            BuffId::DummyBuff002 => 300,
            BuffId::DummyBuff003 => 301,
            BuffId::DummyBuff004 => 302,
            BuffId::DummyBuff005 => 303,
            BuffId::OnCreepQueen => 304,
            BuffId::LoadOutSprayTracker => 305,
            BuffId::CloakField => 306,
            BuffId::TakenDamage => 307,
            BuffId::RavenScramblerMissileCarrier => 308,
        }
    }

    /// The number by which the game names this buff.
    pub fn to_u32(self) -> (id: u32)
        ensures
            id == self.code(),
    {
        match self {
            BuffId::Null => 0,
            BuffId::Radar25 => 1,
            BuffId::Tauntb => 2,
            BuffId::DisableAbils => 3,
            BuffId::TransientMorph => 4,
            BuffId::GravitonBeam => 5,
            BuffId::GhostCloak => 6,
            BuffId::BansheeCloak => 7,
            BuffId::PowerUserWarpable => 8,
            BuffId::VortexBehaviorEnemy => 9,
            BuffId::Corruption => 10,
            BuffId::QueenSpawnLarvaTimer => 11,
            BuffId::GhostHoldFire => 12,
            BuffId::GhostHoldFireB => 13,
            BuffId::Leech => 14,
            BuffId::LeechDisableAbilities => 15,
            BuffId::EMPDecloak => 16,
            BuffId::FungalGrowth => 17,
            BuffId::GuardianShield => 18,
            BuffId::SeekerMissileTimeout => 19,
            BuffId::TimeWarpProduction => 20,
            BuffId::Ethereal => 21,
            BuffId::NeuralParasite => 22,
            BuffId::NeuralParasiteWait => 23,
            BuffId::StimpackMarauder => 24,
            BuffId::SupplyDrop => 25,
            BuffId::_250mmStrikeCannons => 26,
            BuffId::Stimpack => 27,
            BuffId::PsiStorm => 28,
            BuffId::CloakFieldEffect => 29,
            BuffId::Charging => 30,
            BuffId::AIDangerBuff => 31,
            BuffId::VortexBehavior => 32,
            BuffId::Slow => 33,
            BuffId::TemporalRiftUnit => 34,
            BuffId::SheepBusy => 35,
            BuffId::Contaminated => 36,
            BuffId::TimeScaleConversionBehavior => 37,
            BuffId::BlindingCloudStructure => 38,
            BuffId::CollapsibleRockTowerConjoinedSearch => 39,
            BuffId::CollapsibleRockTowerRampDiagonalConjoinedSearch => 40,
            BuffId::CollapsibleTerranTowerConjoinedSearch => 41,
            BuffId::CollapsibleTerranTowerRampDiagonalConjoinedSearch => 42,
            BuffId::DigesterCreepSprayVision => 43,
            BuffId::InvulnerabilityShield => 44,
            BuffId::MineDroneCountdown => 45,
            BuffId::MothershipStasis => 46,
            BuffId::MothershipStasisCaster => 47,
            BuffId::MothershipCoreEnergizeVisual => 48,
            BuffId::OracleRevelation => 49,
            BuffId::GhostSnipeDoT => 50,
            BuffId::NexusPhaseShift => 51,
            BuffId::NexusInvulnerability => 52,
            BuffId::RoughTerrainSearch => 53,
            BuffId::RoughTerrainSlow => 54,
            BuffId::OracleCloakField => 55,
            BuffId::OracleCloakFieldEffect => 56,
            BuffId::ScryerFriendly => 57,
            BuffId::SpectreShield => 58,
            BuffId::ViperConsumeStructure => 59,
            BuffId::RestoreShields => 60,
            BuffId::MercenaryCycloneMissiles => 61,
            BuffId::MercenarySensorDish => 62,
            BuffId::MercenaryShield => 63,
            BuffId::Scryer => 64,
            BuffId::StunRoundInitialBehavior => 65,
            BuffId::BuildingShield => 66,
            BuffId::LaserSight => 67,
            BuffId::ProtectiveBarrier => 68,
            BuffId::CorruptorGroundAttackDebuff => 69,
            BuffId::BattlecruiserAntiAirDisable => 70,
            BuffId::BuildingStasis => 71,
            BuffId::Stasis => 72,
            BuffId::ResourceStun => 73,
            BuffId::MaximumThrust => 74,
            BuffId::ChargeUp => 75,
            BuffId::CloakUnit => 76,
            BuffId::NullField => 77,
            BuffId::Rescue => 78,
            BuffId::Benign => 79,
            BuffId::LaserTargeting => 80,
            BuffId::Engage => 81,
            BuffId::CapResource => 82,
            BuffId::BlindingCloud => 83,
            BuffId::DoomDamageDelay => 84,
            BuffId::EyeStalk => 85,
            BuffId::BurrowCharge => 86,
            BuffId::Hidden => 87,
            BuffId::MineDroneDOT => 88,
            BuffId::MedivacSpeedBoost => 89,
            BuffId::ExtendBridgeExtendingBridgeNEWide8Out => 90,
            BuffId::ExtendBridgeExtendingBridgeNWWide8Out => 91,
            BuffId::ExtendBridgeExtendingBridgeNEWide10Out => 92,
            BuffId::ExtendBridgeExtendingBridgeNWWide10Out => 93,
            BuffId::ExtendBridgeExtendingBridgeNEWide12Out => 94,
            BuffId::ExtendBridgeExtendingBridgeNWWide12Out => 95,
            BuffId::PhaseShield => 96,
            BuffId::Purify => 97,
            BuffId::VoidSiphon => 98,
            BuffId::OracleWeapon => 99,
            BuffId::AntiAirWeaponSwitchCooldown => 100,
            BuffId::ArbiterMPStasisField => 101,
            BuffId::ImmortalOverload => 102,
            BuffId::CloakingFieldTargeted => 103,
            BuffId::LightningBomb => 104,
            BuffId::OraclePhaseShift => 105,
            BuffId::ReleaseInterceptorsCooldown => 106,
            BuffId::ReleaseInterceptorsTimedLifeWarning => 107,
            BuffId::ReleaseInterceptorsWanderDelay => 108,
            BuffId::ReleaseInterceptorsBeacon => 109,
            BuffId::ArbiterMPCloakFieldEffect => 110,
            BuffId::PurificationNova => 111,
            BuffId::CorruptionBombDamage => 112,
            BuffId::CorsairMPDisruptionWeb => 113,
            BuffId::DisruptorPush => 114,
            BuffId::LightofAiur => 115,
            BuffId::LockOn => 116,
            BuffId::Overcharge => 117,
            BuffId::OverchargeDamage => 118,
            BuffId::OverchargeSpeedBoost => 119,
            BuffId::SeekerMissile => 120,
            BuffId::TemporalField => 121,
            BuffId::VoidRaySwarmDamageBoost => 122,
            BuffId::VoidMPImmortalReviveSupressed => 123,
            BuffId::DevourerMPAcidSpores => 124,
            BuffId::DefilerMPConsume => 125,
            BuffId::DefilerMPDarkSwarm => 126,
            BuffId::DefilerMPPlague => 127,
            BuffId::QueenMPEnsnare => 128,
            BuffId::OracleStasisTrapTarget => 129,
            BuffId::SelfRepair => 130,
            BuffId::AggressiveMutation => 131,
            BuffId::ParasiticBomb => 132,
            BuffId::ParasiticBombUnitKU => 133,
            BuffId::ParasiticBombSecondaryUnitSearch => 134,
            BuffId::AdeptDeathCheck => 135,
            BuffId::LurkerHoldFire => 136,
            BuffId::LurkerHoldFireB => 137,
            BuffId::TimeStopStun => 138,
            BuffId::SlaynElementalGrabStun => 139,
            BuffId::PurificationNovaPost => 140,
            BuffId::DisableInterceptors => 141,
            BuffId::BypassArmorDebuffOne => 142,
            BuffId::BypassArmorDebuffTwo => 143,
            BuffId::BypassArmorDebuffThree => 144,
            BuffId::ChannelSnipeCombat => 145,
            BuffId::TempestDisruptionBlastStunBehavior => 146,
            BuffId::GravitonPrison => 147,
            BuffId::InfestorDisease => 148,
            BuffId::SSLightningProjector => 149,
            BuffId::PurifierPlanetCrackerCharge => 150,
            BuffId::SpectreCloaking => 151,
            BuffId::WraithCloak => 152,
            BuffId::PsytrousOxide => 153,
            BuffId::BansheeCloakCrossSpectrumDampeners => 154,
            BuffId::SSBattlecruiserHunterSeekerTimeout => 155,
            BuffId::SSStrongerEnemyBuff => 156,
            BuffId::SSTerraTronArmMissileTargetCheck => 157,
            BuffId::SSMissileTimeout => 158,
            BuffId::SSLeviathanBombCollisionCheck => 159,
            BuffId::SSLeviathanBombExplodeTimer => 160,
            BuffId::SSLeviathanBombMissileTargetCheck => 161,
            BuffId::SSTerraTronCollisionCheck => 162,
            BuffId::SSCarrierBossCollisionCheck => 163,
            BuffId::SSCorruptorMissileTargetCheck => 164,
            BuffId::SSInvulnerable => 165,
            BuffId::SSLeviathanTentacleMissileTargetCheck => 166,
            BuffId::SSLeviathanTentacleMissileTargetCheckInverted => 167,
            BuffId::SSLeviathanTentacleTargetDeathDelay => 168,
            BuffId::SSLeviathanTentacleMissileScanSwapDelay => 169,
            BuffId::SSPowerUpDiagonal2 => 170,
            BuffId::SSBattlecruiserCollisionCheck => 171,
            BuffId::SSTerraTronMissileSpinnerMissileLauncher => 172,
            BuffId::SSTerraTronMissileSpinnerCollisionCheck => 173,
            BuffId::SSTerraTronMissileLauncher => 174,
            BuffId::SSBattlecruiserMissileLauncher => 175,
            BuffId::SSTerraTronStun => 176,
            BuffId::SSVikingRespawn => 177,
            BuffId::SSWraithCollisionCheck => 178,
            BuffId::SSScourgeMissileTargetCheck => 179,
            BuffId::SSScourgeDeath => 180,
            BuffId::SSSwarmGuardianCollisionCheck => 181,
            BuffId::SSFighterBombMissileDeath => 182,
            BuffId::SSFighterDroneDamageResponse => 183,
            BuffId::SSInterceptorCollisionCheck => 184,
            BuffId::SSCarrierCollisionCheck => 185,
            BuffId::SSMissileTargetCheckVikingDrone => 186,
            BuffId::SSMissileTargetCheckVikingStrong1 => 187,
            BuffId::SSMissileTargetCheckVikingStrong2 => 188,
            BuffId::SSPowerUpHealth1 => 189,
            BuffId::SSPowerUpHealth2 => 190,
            BuffId::SSPowerUpStrong => 191,
            BuffId::SSPowerupMorphToBomb => 192,
            BuffId::SSPowerupMorphToHealth => 193,
            BuffId::SSPowerupMorphToSideMissiles => 194,
            BuffId::SSPowerupMorphToStrongerMissiles => 195,
            BuffId::SSCorruptorCollisionCheck => 196,
            BuffId::SSScoutCollisionCheck => 197,
            BuffId::SSPhoenixCollisionCheck => 198,
            BuffId::SSScourgeCollisionCheck => 199,
            BuffId::SSLeviathanCollisionCheck => 200,
            BuffId::SSScienceVesselCollisionCheck => 201,
            BuffId::SSTerraTronSawCollisionCheck => 202,
            BuffId::SSLightningProjectorCollisionCheck => 203,
            BuffId::ShiftDelay => 204,
            BuffId::BioStasis => 205,
            BuffId::PersonalCloakingFree => 206,
            BuffId::EMPDrain => 207,
            BuffId::MindBlastStun => 208,
            BuffId::_330mmBarrageCannons => 209,
            BuffId::VoodooShield => 210,
            BuffId::SpectreCloakingFree => 211,
            BuffId::UltrasonicPulseStun => 212,
            BuffId::Irradiate => 213,
            BuffId::NydusWormLavaInstantDeath => 214,
            BuffId::PredatorCloaking => 215,
            BuffId::PsiDisruption => 216,
            BuffId::MindControl => 217,
            BuffId::QueenKnockdown => 218,
            BuffId::ScienceVesselCloakField => 219,
            BuffId::SporeCannonMissile => 220,
            BuffId::ArtanisTemporalRiftUnit => 221,
            BuffId::ArtanisCloakingFieldEffect => 222,
            BuffId::ArtanisVortexBehavior => 223,
            BuffId::Incapacitated => 224,
            BuffId::KarassPsiStorm => 225,
            BuffId::DutchMarauderSlow => 226,
            BuffId::JumpStompStun => 227,
            BuffId::JumpStompFStun => 228,
            BuffId::RaynorMissileTimedLife => 229,
            BuffId::PsionicShockwaveHeightAndStun => 230,
            BuffId::ShadowClone => 231,
            BuffId::AutomatedRepair => 232,
            BuffId::Slimed => 233,
            BuffId::RaynorTimeBombMissile => 234,
            BuffId::RaynorTimeBombUnit => 235,
            BuffId::TychusCommandoStimPack => 236,
            BuffId::ViralPlasma => 237,
            BuffId::Napalm => 238,
            BuffId::BurstCapacitorsDamageBuff => 239,
            BuffId::ColonyInfestation => 240,
            BuffId::Domination => 241,
            BuffId::EMPBurst => 242,
            BuffId::HybridCZergyRoots => 243,
            BuffId::HybridFZergyRoots => 244,
            BuffId::LockdownB => 245,
            BuffId::SpectreLockdownB => 246,
            BuffId::VoodooLockdown => 247,
            BuffId::ZeratulStun => 248,
            BuffId::BuildingScarab => 249,
            BuffId::VortexBehaviorEradicator => 250,
            BuffId::GhostBlast => 251,
            BuffId::HeroicBuff03 => 252,
            BuffId::CannonRadar => 253,
            BuffId::SSMissileTargetCheckViking => 254,
            BuffId::SSMissileTargetCheck => 255,
            BuffId::SSMaxSpeed => 256,
            BuffId::SSMaxAcceleration => 257,
            BuffId::SSPowerUpDiagonal1 => 258,
            BuffId::Water => 259,
            BuffId::DefensiveMatrix => 260,
            BuffId::TestAttribute => 261,
            BuffId::TestVeterancy => 262,
            BuffId::ShredderSwarmDamageApply => 263,
            BuffId::CorruptorInfesting => 264,
            BuffId::MercGroundDropDelay => 265,
            BuffId::MercGroundDrop => 266,
            BuffId::MercAirDropDelay => 267,
            BuffId::SpectreHoldFire => 268,
            BuffId::SpectreHoldFireB => 269,
            BuffId::ItemGravityBombs => 270,
            BuffId::CarryMineralFieldMinerals => 271,
            BuffId::CarryHighYieldMineralFieldMinerals => 272,
            BuffId::CarryHarvestableVespeneGeyserGas => 273,
            BuffId::CarryHarvestableVespeneGeyserGasProtoss => 274,
            BuffId::CarryHarvestableVespeneGeyserGasZerg => 275,
            BuffId::PermanentlyCloaked => 276,
            BuffId::RavenScramblerMissile => 277,
            BuffId::RavenShredderMissileTimeout => 278,
            BuffId::RavenShredderMissileTint => 279,
            BuffId::RavenShredderMissileArmorReduction => 280,
            BuffId::ChronoBoostEnergyCost => 281,
            BuffId::NexusShieldRechargeOnPylonBehavior => 282,
            BuffId::NexusShieldRechargeOnPylonBehaviorSecondaryOnTarget => 283,
            BuffId::InfestorEnsnare => 284,
            BuffId::InfestorEnsnareMakePrecursorReheightSource => 285,
            BuffId::NexusShieldOvercharge => 286,
            BuffId::ParasiticBombDelayTimedLife => 287,
            BuffId::Transfusion => 288,
            BuffId::AccelerationZoneTemporalField => 289,
            BuffId::AccelerationZoneFlyingTemporalField => 290,
            BuffId::InhibitorZoneFlyingTemporalField => 291,
            BuffId::DummyBuff000 => 292,
            BuffId::InhibitorZoneTemporalField => 293,
            BuffId::ResonatingGlaivesPhaseShift => 294,
            BuffId::NeuralParasiteChildren => 295,
            BuffId::AmorphousArmorcloud => 296,
            BuffId::RavenShredderMissileArmorReductionUISubtruct => 297,
            BuffId::BatteryOvercharge => 298,
            BuffId::DummyBuff001 => 299,
            BuffId::DummyBuff002 => 300,
            BuffId::DummyBuff003 => 301,
            BuffId::DummyBuff004 => 302,
            BuffId::DummyBuff005 => 303,
            BuffId::OnCreepQueen => 304,
            BuffId::LoadOutSprayTracker => 305,
            BuffId::CloakField => 306,
            BuffId::TakenDamage => 307,
            BuffId::RavenScramblerMissileCarrier => 308,
        }
    }

    /// The buff that the game names by `id`, or `None` where it names none.
    pub open spec fn spec_from_u32(id: u32) -> Option<BuffId> {
        match id {
            0 => Some(BuffId::Null),
            1 => Some(BuffId::Radar25),
            2 => Some(BuffId::Tauntb),
            3 => Some(BuffId::DisableAbils),
            4 => Some(BuffId::TransientMorph),
            5 => Some(BuffId::GravitonBeam),
            6 => Some(BuffId::GhostCloak),
            7 => Some(BuffId::BansheeCloak),
            8 => Some(BuffId::PowerUserWarpable),
            9 => Some(BuffId::VortexBehaviorEnemy),
            10 => Some(BuffId::Corruption),
            11 => Some(BuffId::QueenSpawnLarvaTimer),
            12 => Some(BuffId::GhostHoldFire),
            13 => Some(BuffId::GhostHoldFireB),
            14 => Some(BuffId::Leech),
            15 => Some(BuffId::LeechDisableAbilities),
            16 => Some(BuffId::EMPDecloak),
            17 => Some(BuffId::FungalGrowth),
            18 => Some(BuffId::GuardianShield),
            19 => Some(BuffId::SeekerMissileTimeout),
            20 => Some(BuffId::TimeWarpProduction),
            21 => Some(BuffId::Ethereal),
            22 => Some(BuffId::NeuralParasite),
            23 => Some(BuffId::NeuralParasiteWait),
            24 => Some(BuffId::StimpackMarauder),
            25 => Some(BuffId::SupplyDrop),
            26 => Some(BuffId::_250mmStrikeCannons),
            27 => Some(BuffId::Stimpack),
            28 => Some(BuffId::PsiStorm),
            29 => Some(BuffId::CloakFieldEffect),
            30 => Some(BuffId::Charging),
            31 => Some(BuffId::AIDangerBuff),
            32 => Some(BuffId::VortexBehavior),
            33 => Some(BuffId::Slow),
            34 => Some(BuffId::TemporalRiftUnit),
            35 => Some(BuffId::SheepBusy),
            36 => Some(BuffId::Contaminated),
            37 => Some(BuffId::TimeScaleConversionBehavior),
            38 => Some(BuffId::BlindingCloudStructure),
            39 => Some(BuffId::CollapsibleRockTowerConjoinedSearch),
            40 => Some(BuffId::CollapsibleRockTowerRampDiagonalConjoinedSearch),
            41 => Some(BuffId::CollapsibleTerranTowerConjoinedSearch),
            42 => Some(BuffId::CollapsibleTerranTowerRampDiagonalConjoinedSearch),
            43 => Some(BuffId::DigesterCreepSprayVision),
            44 => Some(BuffId::InvulnerabilityShield),
            45 => Some(BuffId::MineDroneCountdown),
            46 => Some(BuffId::MothershipStasis),
            47 => Some(BuffId::MothershipStasisCaster),
            48 => Some(BuffId::MothershipCoreEnergizeVisual),
            49 => Some(BuffId::OracleRevelation),
            50 => Some(BuffId::GhostSnipeDoT),
            51 => Some(BuffId::NexusPhaseShift),
            52 => Some(BuffId::NexusInvulnerability),
            53 => Some(BuffId::RoughTerrainSearch),
            54 => Some(BuffId::RoughTerrainSlow),
            55 => Some(BuffId::OracleCloakField),
            56 => Some(BuffId::OracleCloakFieldEffect),
            57 => Some(BuffId::ScryerFriendly),
            58 => Some(BuffId::SpectreShield),
            59 => Some(BuffId::ViperConsumeStructure),
            60 => Some(BuffId::RestoreShields),
            61 => Some(BuffId::MercenaryCycloneMissiles),
            62 => Some(BuffId::MercenarySensorDish),
            63 => Some(BuffId::MercenaryShield),
            64 => Some(BuffId::Scryer),
            65 => Some(BuffId::StunRoundInitialBehavior),
            66 => Some(BuffId::BuildingShield),
            67 => Some(BuffId::LaserSight),
            68 => Some(BuffId::ProtectiveBarrier),
            69 => Some(BuffId::CorruptorGroundAttackDebuff),
            70 => Some(BuffId::BattlecruiserAntiAirDisable),
            71 => Some(BuffId::BuildingStasis),
            72 => Some(BuffId::Stasis),
            73 => Some(BuffId::ResourceStun),
            74 => Some(BuffId::MaximumThrust),
            75 => Some(BuffId::ChargeUp),
            76 => Some(BuffId::CloakUnit),
            77 => Some(BuffId::NullField),
            78 => Some(BuffId::Rescue),
            79 => Some(BuffId::Benign),
            80 => Some(BuffId::LaserTargeting),
            81 => Some(BuffId::Engage),
            82 => Some(BuffId::CapResource),
            83 => Some(BuffId::BlindingCloud),
            84 => Some(BuffId::DoomDamageDelay),
            85 => Some(BuffId::EyeStalk),
            86 => Some(BuffId::BurrowCharge),
            87 => Some(BuffId::Hidden),
            88 => Some(BuffId::MineDroneDOT),
            89 => Some(BuffId::MedivacSpeedBoost),
            90 => Some(BuffId::ExtendBridgeExtendingBridgeNEWide8Out),
            91 => Some(BuffId::ExtendBridgeExtendingBridgeNWWide8Out),
            92 => Some(BuffId::ExtendBridgeExtendingBridgeNEWide10Out),
            93 => Some(BuffId::ExtendBridgeExtendingBridgeNWWide10Out),
            94 => Some(BuffId::ExtendBridgeExtendingBridgeNEWide12Out),
            95 => Some(BuffId::ExtendBridgeExtendingBridgeNWWide12Out),
            96 => Some(BuffId::PhaseShield),
            97 => Some(BuffId::Purify),
            98 => Some(BuffId::VoidSiphon),
            99 => Some(BuffId::OracleWeapon),
            100 => Some(BuffId::AntiAirWeaponSwitchCooldown),
            101 => Some(BuffId::ArbiterMPStasisField),
            102 => Some(BuffId::ImmortalOverload),
            103 => Some(BuffId::CloakingFieldTargeted),
            104 => Some(BuffId::LightningBomb),
            105 => Some(BuffId::OraclePhaseShift),
            106 => Some(BuffId::ReleaseInterceptorsCooldown),
            107 => Some(BuffId::ReleaseInterceptorsTimedLifeWarning),
            108 => Some(BuffId::ReleaseInterceptorsWanderDelay),
            109 => Some(BuffId::ReleaseInterceptorsBeacon),
            110 => Some(BuffId::ArbiterMPCloakFieldEffect),
            111 => Some(BuffId::PurificationNova),
            112 => Some(BuffId::CorruptionBombDamage),
            113 => Some(BuffId::CorsairMPDisruptionWeb),
            114 => Some(BuffId::DisruptorPush),
            115 => Some(BuffId::LightofAiur),
            116 => Some(BuffId::LockOn),
            117 => Some(BuffId::Overcharge),
            118 => Some(BuffId::OverchargeDamage),
            119 => Some(BuffId::OverchargeSpeedBoost),
            120 => Some(BuffId::SeekerMissile),
            121 => Some(BuffId::TemporalField),
            122 => Some(BuffId::VoidRaySwarmDamageBoost),
            123 => Some(BuffId::VoidMPImmortalReviveSupressed),
            124 => Some(BuffId::DevourerMPAcidSpores),
            125 => Some(BuffId::DefilerMPConsume),
            126 => Some(BuffId::DefilerMPDarkSwarm),
            127 => Some(BuffId::DefilerMPPlague),
            128 => Some(BuffId::QueenMPEnsnare),
            129 => Some(BuffId::OracleStasisTrapTarget),
            130 => Some(BuffId::SelfRepair),
            131 => Some(BuffId::AggressiveMutation),
            132 => Some(BuffId::ParasiticBomb),
            133 => Some(BuffId::ParasiticBombUnitKU),
            134 => Some(BuffId::ParasiticBombSecondaryUnitSearch),
            135 => Some(BuffId::AdeptDeathCheck),
            136 => Some(BuffId::LurkerHoldFire),
            137 => Some(BuffId::LurkerHoldFireB),
            138 => Some(BuffId::TimeStopStun),
            139 => Some(BuffId::SlaynElementalGrabStun),
            140 => Some(BuffId::PurificationNovaPost),
            141 => Some(BuffId::DisableInterceptors),
            142 => Some(BuffId::BypassArmorDebuffOne),
            143 => Some(BuffId::BypassArmorDebuffTwo),
            144 => Some(BuffId::BypassArmorDebuffThree),
            145 => Some(BuffId::ChannelSnipeCombat),
            146 => Some(BuffId::TempestDisruptionBlastStunBehavior),
            147 => Some(BuffId::GravitonPrison),
            148 => Some(BuffId::InfestorDisease),
            149 => Some(BuffId::SSLightningProjector),
            150 => Some(BuffId::PurifierPlanetCrackerCharge),
            151 => Some(BuffId::SpectreCloaking),
            152 => Some(BuffId::WraithCloak),
            153 => Some(BuffId::PsytrousOxide),
            154 => Some(BuffId::BansheeCloakCrossSpectrumDampeners),
            155 => Some(BuffId::SSBattlecruiserHunterSeekerTimeout),
            156 => Some(BuffId::SSStrongerEnemyBuff),
            157 => Some(BuffId::SSTerraTronArmMissileTargetCheck),
            158 => Some(BuffId::SSMissileTimeout),
            159 => Some(BuffId::SSLeviathanBombCollisionCheck),
            160 => Some(BuffId::SSLeviathanBombExplodeTimer),
            161 => Some(BuffId::SSLeviathanBombMissileTargetCheck),
            162 => Some(BuffId::SSTerraTronCollisionCheck),
            163 => Some(BuffId::SSCarrierBossCollisionCheck),
            164 => Some(BuffId::SSCorruptorMissileTargetCheck),
            165 => Some(BuffId::SSInvulnerable),
            166 => Some(BuffId::SSLeviathanTentacleMissileTargetCheck),
            167 => Some(BuffId::SSLeviathanTentacleMissileTargetCheckInverted),
            168 => Some(BuffId::SSLeviathanTentacleTargetDeathDelay),
            169 => Some(BuffId::SSLeviathanTentacleMissileScanSwapDelay),
            170 => Some(BuffId::SSPowerUpDiagonal2),
            171 => Some(BuffId::SSBattlecruiserCollisionCheck),
            172 => Some(BuffId::SSTerraTronMissileSpinnerMissileLauncher),
            173 => Some(BuffId::SSTerraTronMissileSpinnerCollisionCheck),
            174 => Some(BuffId::SSTerraTronMissileLauncher),
            175 => Some(BuffId::SSBattlecruiserMissileLauncher),
            176 => Some(BuffId::SSTerraTronStun),
            177 => Some(BuffId::SSVikingRespawn),
            178 => Some(BuffId::SSWraithCollisionCheck),
            179 => Some(BuffId::SSScourgeMissileTargetCheck),
            180 => Some(BuffId::SSScourgeDeath),
            181 => Some(BuffId::SSSwarmGuardianCollisionCheck),
            182 => Some(BuffId::SSFighterBombMissileDeath),
            183 => Some(BuffId::SSFighterDroneDamageResponse),
            184 => Some(BuffId::SSInterceptorCollisionCheck),
            185 => Some(BuffId::SSCarrierCollisionCheck),
            186 => Some(BuffId::SSMissileTargetCheckVikingDrone),
            187 => Some(BuffId::SSMissileTargetCheckVikingStrong1),
            188 => Some(BuffId::SSMissileTargetCheckVikingStrong2),
            189 => Some(BuffId::SSPowerUpHealth1),
            190 => Some(BuffId::SSPowerUpHealth2),
            191 => Some(BuffId::SSPowerUpStrong),
            192 => Some(BuffId::SSPowerupMorphToBomb),
            193 => Some(BuffId::SSPowerupMorphToHealth),
            194 => Some(BuffId::SSPowerupMorphToSideMissiles),
            195 => Some(BuffId::SSPowerupMorphToStrongerMissiles),
            196 => Some(BuffId::SSCorruptorCollisionCheck),
            197 => Some(BuffId::SSScoutCollisionCheck),
            198 => Some(BuffId::SSPhoenixCollisionCheck),
            199 => Some(BuffId::SSScourgeCollisionCheck),
            200 => Some(BuffId::SSLeviathanCollisionCheck),
            201 => Some(BuffId::SSScienceVesselCollisionCheck),
            202 => Some(BuffId::SSTerraTronSawCollisionCheck),
            203 => Some(BuffId::SSLightningProjectorCollisionCheck),
            204 => Some(BuffId::ShiftDelay),
            205 => Some(BuffId::BioStasis),
            206 => Some(BuffId::PersonalCloakingFree),
            207 => Some(BuffId::EMPDrain),
            208 => Some(BuffId::MindBlastStun),
            209 => Some(BuffId::_330mmBarrageCannons),
            210 => Some(BuffId::VoodooShield),
            211 => Some(BuffId::SpectreCloakingFree),
            212 => Some(BuffId::UltrasonicPulseStun),
            213 => Some(BuffId::Irradiate),
            214 => Some(BuffId::NydusWormLavaInstantDeath),
            215 => Some(BuffId::PredatorCloaking),
            216 => Some(BuffId::PsiDisruption),
            217 => Some(BuffId::MindControl),
            218 => Some(BuffId::QueenKnockdown),
            219 => Some(BuffId::ScienceVesselCloakField),
            220 => Some(BuffId::SporeCannonMissile),
            221 => Some(BuffId::ArtanisTemporalRiftUnit),
            222 => Some(BuffId::ArtanisCloakingFieldEffect),
            223 => Some(BuffId::ArtanisVortexBehavior),
            224 => Some(BuffId::Incapacitated),
            225 => Some(BuffId::KarassPsiStorm),
            226 => Some(BuffId::DutchMarauderSlow),
            227 => Some(BuffId::JumpStompStun),
            228 => Some(BuffId::JumpStompFStun),
            229 => Some(BuffId::RaynorMissileTimedLife),
            230 => Some(BuffId::PsionicShockwaveHeightAndStun),
            231 => Some(BuffId::ShadowClone),
            232 => Some(BuffId::AutomatedRepair),
            233 => Some(BuffId::Slimed),
            234 => Some(BuffId::RaynorTimeBombMissile),
            235 => Some(BuffId::RaynorTimeBombUnit),
            236 => Some(BuffId::TychusCommandoStimPack),
            237 => Some(BuffId::ViralPlasma),
            238 => Some(BuffId::Napalm),
            239 => Some(BuffId::BurstCapacitorsDamageBuff),
            240 => Some(BuffId::ColonyInfestation),
            241 => Some(BuffId::Domination),
            242 => Some(BuffId::EMPBurst),
            243 => Some(BuffId::HybridCZergyRoots),
            244 => Some(BuffId::HybridFZergyRoots),
            245 => Some(BuffId::LockdownB),
            246 => Some(BuffId::SpectreLockdownB),
            247 => Some(BuffId::VoodooLockdown),
            248 => Some(BuffId::ZeratulStun),
            249 => Some(BuffId::BuildingScarab),
            250 => Some(BuffId::VortexBehaviorEradicator),
            251 => Some(BuffId::GhostBlast),
            252 => Some(BuffId::HeroicBuff03),
            253 => Some(BuffId::CannonRadar),
            254 => Some(BuffId::SSMissileTargetCheckViking),
            255 => Some(BuffId::SSMissileTargetCheck),
            256 => Some(BuffId::SSMaxSpeed),
            257 => Some(BuffId::SSMaxAcceleration),
            258 => Some(BuffId::SSPowerUpDiagonal1),
            259 => Some(BuffId::Water),
            260 => Some(BuffId::DefensiveMatrix),
            261 => Some(BuffId::TestAttribute),
            262 => Some(BuffId::TestVeterancy),
            263 => Some(BuffId::ShredderSwarmDamageApply),
            264 => Some(BuffId::CorruptorInfesting),
            265 => Some(BuffId::MercGroundDropDelay),
            266 => Some(BuffId::MercGroundDrop),
            267 => Some(BuffId::MercAirDropDelay),
            268 => Some(BuffId::SpectreHoldFire),
            269 => Some(BuffId::SpectreHoldFireB),
            270 => Some(BuffId::ItemGravityBombs),
            271 => Some(BuffId::CarryMineralFieldMinerals),
            272 => Some(BuffId::CarryHighYieldMineralFieldMinerals),
            273 => Some(BuffId::CarryHarvestableVespeneGeyserGas),
            274 => Some(BuffId::CarryHarvestableVespeneGeyserGasProtoss),
            275 => Some(BuffId::CarryHarvestableVespeneGeyserGasZerg),
            276 => Some(BuffId::PermanentlyCloaked),
            277 => Some(BuffId::RavenScramblerMissile),
            278 => Some(BuffId::RavenShredderMissileTimeout),
            279 => Some(BuffId::RavenShredderMissileTint),
            280 => Some(BuffId::RavenShredderMissileArmorReduction),
            281 => Some(BuffId::ChronoBoostEnergyCost),
            282 => Some(BuffId::NexusShieldRechargeOnPylonBehavior),
            283 => Some(BuffId::NexusShieldRechargeOnPylonBehaviorSecondaryOnTarget),
            284 => Some(BuffId::InfestorEnsnare),
            285 => Some(BuffId::InfestorEnsnareMakePrecursorReheightSource),
            286 => Some(BuffId::NexusShieldOvercharge),
            287 => Some(BuffId::ParasiticBombDelayTimedLife),
            288 => Some(BuffId::Transfusion),
            289 => Some(BuffId::AccelerationZoneTemporalField),
            290 => Some(BuffId::AccelerationZoneFlyingTemporalField),
            291 => Some(BuffId::InhibitorZoneFlyingTemporalField),
            292 => Some(BuffId::DummyBuff000),
            293 => Some(BuffId::InhibitorZoneTemporalField),
            294 => Some(BuffId::ResonatingGlaivesPhaseShift),
            295 => Some(BuffId::NeuralParasiteChildren),
            296 => Some(BuffId::AmorphousArmorcloud),
            297 => Some(BuffId::RavenShredderMissileArmorReductionUISubtruct),
            298 => Some(BuffId::BatteryOvercharge),
            299 => Some(BuffId::DummyBuff001),
            300 => Some(BuffId::DummyBuff002),
            301 => Some(BuffId::DummyBuff003),
            302 => Some(BuffId::DummyBuff004),
            303 => Some(BuffId::DummyBuff005),
            304 => Some(BuffId::OnCreepQueen),
            305 => Some(BuffId::LoadOutSprayTracker),
            306 => Some(BuffId::CloakField),
            307 => Some(BuffId::TakenDamage),
            308 => Some(BuffId::RavenScramblerMissileCarrier),
            _ => None,
        }
    }

    /// The buff that the game names by `id`, or `None` where it names none.
    #[verifier::rlimit(100)]
    #[verifier::spinoff_prover]
    pub fn from_u32(id: u32) -> (r: Option<BuffId>)
        ensures
            r == Self::spec_from_u32(id),
            r.is_some() == (id <= 308),
            r.is_some() ==> r.unwrap().code() == id,
    {
        match id {
            0 => Some(BuffId::Null),
            1 => Some(BuffId::Radar25),
            2 => Some(BuffId::Tauntb),
            3 => Some(BuffId::DisableAbils),
            4 => Some(BuffId::TransientMorph),
            5 => Some(BuffId::GravitonBeam),
            6 => Some(BuffId::GhostCloak),
            7 => Some(BuffId::BansheeCloak),
            8 => Some(BuffId::PowerUserWarpable),
            9 => Some(BuffId::VortexBehaviorEnemy),
            10 => Some(BuffId::Corruption),
            11 => Some(BuffId::QueenSpawnLarvaTimer),
            12 => Some(BuffId::GhostHoldFire),
            13 => Some(BuffId::GhostHoldFireB),
            14 => Some(BuffId::Leech),
            15 => Some(BuffId::LeechDisableAbilities),
            16 => Some(BuffId::EMPDecloak),
            17 => Some(BuffId::FungalGrowth),
            18 => Some(BuffId::GuardianShield),
            19 => Some(BuffId::SeekerMissileTimeout),
            20 => Some(BuffId::TimeWarpProduction),
            21 => Some(BuffId::Ethereal),
            22 => Some(BuffId::NeuralParasite),
            23 => Some(BuffId::NeuralParasiteWait),
            24 => Some(BuffId::StimpackMarauder),
            25 => Some(BuffId::SupplyDrop),
            26 => Some(BuffId::_250mmStrikeCannons),
            27 => Some(BuffId::Stimpack),
            28 => Some(BuffId::PsiStorm),
            29 => Some(BuffId::CloakFieldEffect),
            30 => Some(BuffId::Charging),
            31 => Some(BuffId::AIDangerBuff),
            32 => Some(BuffId::VortexBehavior),
            33 => Some(BuffId::Slow),
            34 => Some(BuffId::TemporalRiftUnit),
            35 => Some(BuffId::SheepBusy),
            36 => Some(BuffId::Contaminated),
            37 => Some(BuffId::TimeScaleConversionBehavior),
            38 => Some(BuffId::BlindingCloudStructure),
            39 => Some(BuffId::CollapsibleRockTowerConjoinedSearch),
            40 => Some(BuffId::CollapsibleRockTowerRampDiagonalConjoinedSearch),
            41 => Some(BuffId::CollapsibleTerranTowerConjoinedSearch),
            42 => Some(BuffId::CollapsibleTerranTowerRampDiagonalConjoinedSearch),
            43 => Some(BuffId::DigesterCreepSprayVision),
            44 => Some(BuffId::InvulnerabilityShield),
            45 => Some(BuffId::MineDroneCountdown),
            46 => Some(BuffId::MothershipStasis),
            47 => Some(BuffId::MothershipStasisCaster),
            48 => Some(BuffId::MothershipCoreEnergizeVisual),
            49 => Some(BuffId::OracleRevelation),
            50 => Some(BuffId::GhostSnipeDoT),
            51 => Some(BuffId::NexusPhaseShift),
            52 => Some(BuffId::NexusInvulnerability),
            53 => Some(BuffId::RoughTerrainSearch),
            54 => Some(BuffId::RoughTerrainSlow),
            55 => Some(BuffId::OracleCloakField),
            56 => Some(BuffId::OracleCloakFieldEffect),
            57 => Some(BuffId::ScryerFriendly),
            58 => Some(BuffId::SpectreShield),
            59 => Some(BuffId::ViperConsumeStructure),
            60 => Some(BuffId::RestoreShields),
            61 => Some(BuffId::MercenaryCycloneMissiles),
            62 => Some(BuffId::MercenarySensorDish),
            63 => Some(BuffId::MercenaryShield),
            64 => Some(BuffId::Scryer),
            65 => Some(BuffId::StunRoundInitialBehavior),
            66 => Some(BuffId::BuildingShield),
            67 => Some(BuffId::LaserSight),
            68 => Some(BuffId::ProtectiveBarrier),
            69 => Some(BuffId::CorruptorGroundAttackDebuff),
            70 => Some(BuffId::BattlecruiserAntiAirDisable),
            71 => Some(BuffId::BuildingStasis),
            72 => Some(BuffId::Stasis),
            73 => Some(BuffId::ResourceStun),
            74 => Some(BuffId::MaximumThrust),
            75 => Some(BuffId::ChargeUp),
            76 => Some(BuffId::CloakUnit),
            77 => Some(BuffId::NullField),
            78 => Some(BuffId::Rescue),
            79 => Some(BuffId::Benign),
            80 => Some(BuffId::LaserTargeting),
            81 => Some(BuffId::Engage),
            82 => Some(BuffId::CapResource),
            83 => Some(BuffId::BlindingCloud),
            84 => Some(BuffId::DoomDamageDelay),
            85 => Some(BuffId::EyeStalk),
            86 => Some(BuffId::BurrowCharge),
            87 => Some(BuffId::Hidden),
            88 => Some(BuffId::MineDroneDOT),
            89 => Some(BuffId::MedivacSpeedBoost),
            90 => Some(BuffId::ExtendBridgeExtendingBridgeNEWide8Out),
            91 => Some(BuffId::ExtendBridgeExtendingBridgeNWWide8Out),
            92 => Some(BuffId::ExtendBridgeExtendingBridgeNEWide10Out),
            93 => Some(BuffId::ExtendBridgeExtendingBridgeNWWide10Out),
            94 => Some(BuffId::ExtendBridgeExtendingBridgeNEWide12Out),
            95 => Some(BuffId::ExtendBridgeExtendingBridgeNWWide12Out),
            96 => Some(BuffId::PhaseShield),
            97 => Some(BuffId::Purify),
            98 => Some(BuffId::VoidSiphon),
            99 => Some(BuffId::OracleWeapon),
            100 => Some(BuffId::AntiAirWeaponSwitchCooldown),
            101 => Some(BuffId::ArbiterMPStasisField),
            102 => Some(BuffId::ImmortalOverload),
            103 => Some(BuffId::CloakingFieldTargeted),
            104 => Some(BuffId::LightningBomb),
            105 => Some(BuffId::OraclePhaseShift),
            106 => Some(BuffId::ReleaseInterceptorsCooldown),
            107 => Some(BuffId::ReleaseInterceptorsTimedLifeWarning),
            108 => Some(BuffId::ReleaseInterceptorsWanderDelay),
            109 => Some(BuffId::ReleaseInterceptorsBeacon),
            110 => Some(BuffId::ArbiterMPCloakFieldEffect),
            111 => Some(BuffId::PurificationNova),
            112 => Some(BuffId::CorruptionBombDamage),
            113 => Some(BuffId::CorsairMPDisruptionWeb),
            114 => Some(BuffId::DisruptorPush),
            115 => Some(BuffId::LightofAiur),
            116 => Some(BuffId::LockOn),
            117 => Some(BuffId::Overcharge),
            118 => Some(BuffId::OverchargeDamage),
            119 => Some(BuffId::OverchargeSpeedBoost),
            120 => Some(BuffId::SeekerMissile),
            121 => Some(BuffId::TemporalField),
            122 => Some(BuffId::VoidRaySwarmDamageBoost),
            123 => Some(BuffId::VoidMPImmortalReviveSupressed),
            124 => Some(BuffId::DevourerMPAcidSpores),
            125 => Some(BuffId::DefilerMPConsume),
            126 => Some(BuffId::DefilerMPDarkSwarm),
            127 => Some(BuffId::DefilerMPPlague),
            128 => Some(BuffId::QueenMPEnsnare),
            129 => Some(BuffId::OracleStasisTrapTarget),
            130 => Some(BuffId::SelfRepair),
            131 => Some(BuffId::AggressiveMutation),
            132 => Some(BuffId::ParasiticBomb),
            133 => Some(BuffId::ParasiticBombUnitKU),
            134 => Some(BuffId::ParasiticBombSecondaryUnitSearch),
            135 => Some(BuffId::AdeptDeathCheck),
            136 => Some(BuffId::LurkerHoldFire),
            137 => Some(BuffId::LurkerHoldFireB),
            138 => Some(BuffId::TimeStopStun),
            139 => Some(BuffId::SlaynElementalGrabStun),
            140 => Some(BuffId::PurificationNovaPost),
            141 => Some(BuffId::DisableInterceptors),
            142 => Some(BuffId::BypassArmorDebuffOne),
            143 => Some(BuffId::BypassArmorDebuffTwo),
            144 => Some(BuffId::BypassArmorDebuffThree),
            145 => Some(BuffId::ChannelSnipeCombat),
            146 => Some(BuffId::TempestDisruptionBlastStunBehavior),
            147 => Some(BuffId::GravitonPrison),
            148 => Some(BuffId::InfestorDisease),
            149 => Some(BuffId::SSLightningProjector),
            150 => Some(BuffId::PurifierPlanetCrackerCharge),
            151 => Some(BuffId::SpectreCloaking),
            152 => Some(BuffId::WraithCloak),
            153 => Some(BuffId::PsytrousOxide),
            154 => Some(BuffId::BansheeCloakCrossSpectrumDampeners),
            155 => Some(BuffId::SSBattlecruiserHunterSeekerTimeout),
            156 => Some(BuffId::SSStrongerEnemyBuff),
            157 => Some(BuffId::SSTerraTronArmMissileTargetCheck),
            158 => Some(BuffId::SSMissileTimeout),
            159 => Some(BuffId::SSLeviathanBombCollisionCheck),
            160 => Some(BuffId::SSLeviathanBombExplodeTimer),
            161 => Some(BuffId::SSLeviathanBombMissileTargetCheck),
            162 => Some(BuffId::SSTerraTronCollisionCheck),
            163 => Some(BuffId::SSCarrierBossCollisionCheck),
            164 => Some(BuffId::SSCorruptorMissileTargetCheck),
            165 => Some(BuffId::SSInvulnerable),
            166 => Some(BuffId::SSLeviathanTentacleMissileTargetCheck),
            167 => Some(BuffId::SSLeviathanTentacleMissileTargetCheckInverted),
            168 => Some(BuffId::SSLeviathanTentacleTargetDeathDelay),
            169 => Some(BuffId::SSLeviathanTentacleMissileScanSwapDelay),
            170 => Some(BuffId::SSPowerUpDiagonal2),
            171 => Some(BuffId::SSBattlecruiserCollisionCheck),
            172 => Some(BuffId::SSTerraTronMissileSpinnerMissileLauncher),
            173 => Some(BuffId::SSTerraTronMissileSpinnerCollisionCheck),
            174 => Some(BuffId::SSTerraTronMissileLauncher),
            175 => Some(BuffId::SSBattlecruiserMissileLauncher),
            176 => Some(BuffId::SSTerraTronStun),
            177 => Some(BuffId::SSVikingRespawn),
            178 => Some(BuffId::SSWraithCollisionCheck),
            179 => Some(BuffId::SSScourgeMissileTargetCheck),
            180 => Some(BuffId::SSScourgeDeath),
            181 => Some(BuffId::SSSwarmGuardianCollisionCheck),
            182 => Some(BuffId::SSFighterBombMissileDeath),
            183 => Some(BuffId::SSFighterDroneDamageResponse),
            184 => Some(BuffId::SSInterceptorCollisionCheck),
            185 => Some(BuffId::SSCarrierCollisionCheck),
            186 => Some(BuffId::SSMissileTargetCheckVikingDrone),
            187 => Some(BuffId::SSMissileTargetCheckVikingStrong1),
            188 => Some(BuffId::SSMissileTargetCheckVikingStrong2),
            189 => Some(BuffId::SSPowerUpHealth1),
            190 => Some(BuffId::SSPowerUpHealth2),
            191 => Some(BuffId::SSPowerUpStrong),
            192 => Some(BuffId::SSPowerupMorphToBomb),
            193 => Some(BuffId::SSPowerupMorphToHealth),
            194 => Some(BuffId::SSPowerupMorphToSideMissiles),
            195 => Some(BuffId::SSPowerupMorphToStrongerMissiles),
            196 => Some(BuffId::SSCorruptorCollisionCheck),
            197 => Some(BuffId::SSScoutCollisionCheck),
            198 => Some(BuffId::SSPhoenixCollisionCheck),
            199 => Some(BuffId::SSScourgeCollisionCheck),
            200 => Some(BuffId::SSLeviathanCollisionCheck),
            201 => Some(BuffId::SSScienceVesselCollisionCheck),
            202 => Some(BuffId::SSTerraTronSawCollisionCheck),
            203 => Some(BuffId::SSLightningProjectorCollisionCheck),
            204 => Some(BuffId::ShiftDelay),
            205 => Some(BuffId::BioStasis),
            206 => Some(BuffId::PersonalCloakingFree),
            207 => Some(BuffId::EMPDrain),
            208 => Some(BuffId::MindBlastStun),
            209 => Some(BuffId::_330mmBarrageCannons),
            210 => Some(BuffId::VoodooShield),
            211 => Some(BuffId::SpectreCloakingFree),
            212 => Some(BuffId::UltrasonicPulseStun),
            213 => Some(BuffId::Irradiate),
            214 => Some(BuffId::NydusWormLavaInstantDeath),
            215 => Some(BuffId::PredatorCloaking),
            216 => Some(BuffId::PsiDisruption),
            217 => Some(BuffId::MindControl),
            218 => Some(BuffId::QueenKnockdown),
            219 => Some(BuffId::ScienceVesselCloakField),
            220 => Some(BuffId::SporeCannonMissile),
            221 => Some(BuffId::ArtanisTemporalRiftUnit),
            222 => Some(BuffId::ArtanisCloakingFieldEffect),
            223 => Some(BuffId::ArtanisVortexBehavior),
            224 => Some(BuffId::Incapacitated),
            225 => Some(BuffId::KarassPsiStorm),
            226 => Some(BuffId::DutchMarauderSlow),
            227 => Some(BuffId::JumpStompStun),
            228 => Some(BuffId::JumpStompFStun),
            229 => Some(BuffId::RaynorMissileTimedLife),
            230 => Some(BuffId::PsionicShockwaveHeightAndStun),
            231 => Some(BuffId::ShadowClone),
            232 => Some(BuffId::AutomatedRepair),
            233 => Some(BuffId::Slimed),
            234 => Some(BuffId::RaynorTimeBombMissile),
            235 => Some(BuffId::RaynorTimeBombUnit),
            236 => Some(BuffId::TychusCommandoStimPack),
            237 => Some(BuffId::ViralPlasma),
            238 => Some(BuffId::Napalm),
            239 => Some(BuffId::BurstCapacitorsDamageBuff),
            240 => Some(BuffId::ColonyInfestation),
            241 => Some(BuffId::Domination),
            242 => Some(BuffId::EMPBurst),
            243 => Some(BuffId::HybridCZergyRoots),
            244 => Some(BuffId::HybridFZergyRoots),
            245 => Some(BuffId::LockdownB),
            246 => Some(BuffId::SpectreLockdownB),
            247 => Some(BuffId::VoodooLockdown),
            248 => Some(BuffId::ZeratulStun),
            249 => Some(BuffId::BuildingScarab),
            250 => Some(BuffId::VortexBehaviorEradicator),
            251 => Some(BuffId::GhostBlast),
            252 => Some(BuffId::HeroicBuff03),
            253 => Some(BuffId::CannonRadar),
            254 => Some(BuffId::SSMissileTargetCheckViking),
            255 => Some(BuffId::SSMissileTargetCheck),
            256 => Some(BuffId::SSMaxSpeed),
            257 => Some(BuffId::SSMaxAcceleration),
            258 => Some(BuffId::SSPowerUpDiagonal1),
            259 => Some(BuffId::Water),
            260 => Some(BuffId::DefensiveMatrix),
            261 => Some(BuffId::TestAttribute),
            262 => Some(BuffId::TestVeterancy),
            263 => Some(BuffId::ShredderSwarmDamageApply),
            264 => Some(BuffId::CorruptorInfesting),
            265 => Some(BuffId::MercGroundDropDelay),
            266 => Some(BuffId::MercGroundDrop),
            267 => Some(BuffId::MercAirDropDelay),
            268 => Some(BuffId::SpectreHoldFire),
            269 => Some(BuffId::SpectreHoldFireB),
            270 => Some(BuffId::ItemGravityBombs),
            271 => Some(BuffId::CarryMineralFieldMinerals),
            272 => Some(BuffId::CarryHighYieldMineralFieldMinerals),
            273 => Some(BuffId::CarryHarvestableVespeneGeyserGas),
            274 => Some(BuffId::CarryHarvestableVespeneGeyserGasProtoss),
            275 => Some(BuffId::CarryHarvestableVespeneGeyserGasZerg),
            276 => Some(BuffId::PermanentlyCloaked),
            277 => Some(BuffId::RavenScramblerMissile),
            278 => Some(BuffId::RavenShredderMissileTimeout),
            279 => Some(BuffId::RavenShredderMissileTint),
            280 => Some(BuffId::RavenShredderMissileArmorReduction),
            281 => Some(BuffId::ChronoBoostEnergyCost),
            282 => Some(BuffId::NexusShieldRechargeOnPylonBehavior),
            283 => Some(BuffId::NexusShieldRechargeOnPylonBehaviorSecondaryOnTarget),
            284 => Some(BuffId::InfestorEnsnare),
            285 => Some(BuffId::InfestorEnsnareMakePrecursorReheightSource),
            286 => Some(BuffId::NexusShieldOvercharge),
            287 => Some(BuffId::ParasiticBombDelayTimedLife),
            288 => Some(BuffId::Transfusion),
            289 => Some(BuffId::AccelerationZoneTemporalField),
            290 => Some(BuffId::AccelerationZoneFlyingTemporalField),
            291 => Some(BuffId::InhibitorZoneFlyingTemporalField),
            292 => Some(BuffId::DummyBuff000),
            293 => Some(BuffId::InhibitorZoneTemporalField),
            294 => Some(BuffId::ResonatingGlaivesPhaseShift),
            295 => Some(BuffId::NeuralParasiteChildren),
            296 => Some(BuffId::AmorphousArmorcloud),
            297 => Some(BuffId::RavenShredderMissileArmorReductionUISubtruct),
            298 => Some(BuffId::BatteryOvercharge),
            299 => Some(BuffId::DummyBuff001),
            300 => Some(BuffId::DummyBuff002),
            301 => Some(BuffId::DummyBuff003),
            302 => Some(BuffId::DummyBuff004),
            303 => Some(BuffId::DummyBuff005),
            304 => Some(BuffId::OnCreepQueen),
            305 => Some(BuffId::LoadOutSprayTracker),
            306 => Some(BuffId::CloakField),
            307 => Some(BuffId::TakenDamage),
            308 => Some(BuffId::RavenScramblerMissileCarrier),
            _ => None,
        }
    }

}

/// Effect that covers an area of the map.
#[derive(Debug, Clone, Copy, PartialEq, Eq, Structural, Hash)]
#[allow(missing_docs)]
pub enum EffectId {
    Null,
    PsiStormPersistent,
    GuardianShieldPersistent,
    TemporalFieldGrowingBubbleCreatePersistent,
    TemporalFieldAfterBubbleCreatePersistent,
    ThermalLancesForward,
    ScannerSweep,
    NukePersistent,
    LiberatorTargetMorphDelayPersistent,
    LiberatorTargetMorphPersistent,
    BlindingCloudCP,
    RavagerCorrosiveBileCP,
    LurkerMP,
}

impl EffectId {
    /// The number by which the game names this effect.
    pub open spec fn code(self) -> u32 {
        match self {
            EffectId::Null => 0,
            EffectId::PsiStormPersistent => 1,
            EffectId::GuardianShieldPersistent => 2,
            EffectId::TemporalFieldGrowingBubbleCreatePersistent => 3,
            EffectId::TemporalFieldAfterBubbleCreatePersistent => 4,
            EffectId::ThermalLancesForward => 5,
            EffectId::ScannerSweep => 6,
            EffectId::NukePersistent => 7,
            EffectId::LiberatorTargetMorphDelayPersistent => 8,
            EffectId::LiberatorTargetMorphPersistent => 9,
            EffectId::BlindingCloudCP => 10,
            EffectId::RavagerCorrosiveBileCP => 11,
            EffectId::LurkerMP => 12,
        }
    }

    /// The number by which the game names this effect.
    pub fn to_u32(self) -> (id: u32)
        ensures
            id == self.code(),
    {
        match self {
            EffectId::Null => 0,
            EffectId::PsiStormPersistent => 1,
            EffectId::GuardianShieldPersistent => 2,
            EffectId::TemporalFieldGrowingBubbleCreatePersistent => 3,
            EffectId::TemporalFieldAfterBubbleCreatePersistent => 4,
            EffectId::ThermalLancesForward => 5,
            EffectId::ScannerSweep => 6,
            EffectId::NukePersistent => 7,
            EffectId::LiberatorTargetMorphDelayPersistent => 8,
            EffectId::LiberatorTargetMorphPersistent => 9,
            EffectId::BlindingCloudCP => 10,
            EffectId::RavagerCorrosiveBileCP => 11,
            EffectId::LurkerMP => 12,
        }
    }

    /// The effect that the game names by `id`, or `None` where it names none.
    pub open spec fn spec_from_u32(id: u32) -> Option<EffectId> {
        match id {
            0 => Some(EffectId::Null),
            1 => Some(EffectId::PsiStormPersistent),
            2 => Some(EffectId::GuardianShieldPersistent),
            3 => Some(EffectId::TemporalFieldGrowingBubbleCreatePersistent),
            4 => Some(EffectId::TemporalFieldAfterBubbleCreatePersistent),
            5 => Some(EffectId::ThermalLancesForward),
            6 => Some(EffectId::ScannerSweep),
            7 => Some(EffectId::NukePersistent),
            8 => Some(EffectId::LiberatorTargetMorphDelayPersistent),
            9 => Some(EffectId::LiberatorTargetMorphPersistent),
            10 => Some(EffectId::BlindingCloudCP),
            11 => Some(EffectId::RavagerCorrosiveBileCP),
            12 => Some(EffectId::LurkerMP),
            _ => None,
        }
    }

    /// The effect that the game names by `id`, or `None` where it names none.
    pub fn from_u32(id: u32) -> (r: Option<EffectId>)
        ensures
            r == Self::spec_from_u32(id),
            r.is_some() == (id <= 12),
            r.is_some() ==> r.unwrap().code() == id,
    {
        match id {
            0 => Some(EffectId::Null),
            1 => Some(EffectId::PsiStormPersistent),
            2 => Some(EffectId::GuardianShieldPersistent),
            3 => Some(EffectId::TemporalFieldGrowingBubbleCreatePersistent),
            4 => Some(EffectId::TemporalFieldAfterBubbleCreatePersistent),
            5 => Some(EffectId::ThermalLancesForward),
            6 => Some(EffectId::ScannerSweep),
            7 => Some(EffectId::NukePersistent),
            8 => Some(EffectId::LiberatorTargetMorphDelayPersistent),
            9 => Some(EffectId::LiberatorTargetMorphPersistent),
            10 => Some(EffectId::BlindingCloudCP),
            11 => Some(EffectId::RavagerCorrosiveBileCP),
            12 => Some(EffectId::LurkerMP),
            _ => None,
        }
    }

}

} // verus!
