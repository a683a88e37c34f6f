//! What one observation tells, apart from the units themselves.
use vstd::prelude::*;
use crate::action::Action;
use crate::geometry::{Grid, Point2, Visibility};
use crate::ids::{AbilityId, EffectId, UpgradeId};
use crate::ramp::Rect;

verus! {

/// The alliance of a unit or an effect to the bot.
#[derive(Debug, Clone, Copy, PartialEq, Eq, Structural, Hash)]
pub enum Alliance {
    /// The bot's own objects.
    Own,
    /// Owned by an ally of the bot.
    Ally,
    /// Owned by nobody.
    Neutral,
    /// Owned by the opponent.
    Enemy,
}

impl Alliance {
    /// Checks if the object is the bot's own.
    pub fn is_mine(self) -> (r: bool)
        ensures
            r == (self == Alliance::Own),
    {
        matches!(self, Alliance::Own)
    }

    /// Checks if the object is the opponent's.
    pub fn is_enemy(self) -> (r: bool)
        ensures
            r == (self == Alliance::Enemy),
    {
        matches!(self, Alliance::Enemy)
    }

    /// Checks if the object is owned by nobody.
    pub fn is_neutral(self) -> (r: bool)
        ensures
            r == (self == Alliance::Neutral),
    {
        matches!(self, Alliance::Neutral)
    }

    /// Checks if the object is an ally's.
    pub fn is_ally(self) -> (r: bool)
        ensures
            r == (self == Alliance::Ally),
    {
        matches!(self, Alliance::Ally)
    }
}

/// Race of a player.
#[derive(Debug, Clone, Copy, PartialEq, Eq, Structural, Hash)]
pub enum Race {
    /// Terran.
    Terran,
    /// Zerg.
    Zerg,
    /// Protoss.
    Protoss,
    /// Not known yet: the player let the game choose.
    Random,
}

impl Race {
    /// Checks if the race is terran.
    pub fn is_terran(self) -> (r: bool)
        ensures
            r == (self == Race::Terran),
    {
        matches!(self, Race::Terran)
    }

    /// Checks if the race is zerg.
    pub fn is_zerg(self) -> (r: bool)
        ensures
            r == (self == Race::Zerg),
    {
        matches!(self, Race::Zerg)
    }

    /// Checks if the race is protoss.
    pub fn is_protoss(self) -> (r: bool)
        ensures
            r == (self == Race::Protoss),
    {
        matches!(self, Race::Protoss)
    }

    /// Checks if the race is not known yet.
    pub fn is_random(self) -> (r: bool)
        ensures
            r == (self == Race::Random),
    {
        matches!(self, Race::Random)
    }
}

/// Message in the game chat.
#[derive(Debug, Clone)]
pub struct ChatMessage {
    /// Id of the player who sent the message.
    pub player_id: u32,
    /// The message.
    pub message: String,
}

/// Common information of the player.
#[derive(Debug, Default, Clone, Copy, PartialEq, Eq, Structural)]
pub struct Common {
    /// In-game player id.
    pub player_id: u32,
    /// Amount of minerals the bot has.
    pub minerals: u32,
    /// Amount of vespene gas the bot has.
    pub vespene: u32,
    /// Supply capacity.
    pub food_cap: u32,
    /// Supply used in total.
    pub food_used: u32,
    /// Supply used by combat units.
    pub food_army: u32,
    /// Supply used by workers.
    pub food_workers: u32,
    /// The count of idle workers.
    pub idle_worker_count: u32,
    /// The count of combat units.
    pub army_count: u32,
    /// The count of free warp gates.
    pub warp_gate_count: u32,
    /// The count of larvae.
    pub larva_count: u32,
}

/// Different kinds of alert that the game raises.
#[allow(missing_docs)]
#[derive(Debug, Clone, Copy, PartialEq, Eq, Structural)]
pub enum Alert {
    AlertError,
    AddOnComplete,
    BuildingComplete,
    BuildingUnderAttack,
    LarvaHatched,
    MergeComplete,
    MineralsExhausted,
    MorphComplete,
    MothershipComplete,
    MULEExpired,
    NuclearLaunchDetected,
    NukeComplete,
    NydusWormDetected,
    ResearchComplete,
    TrainError,
    TrainUnitComplete,
    TrainWorkerComplete,
    TransformationComplete,
    UnitUnderAttack,
    UpgradeComplete,
    VespeneExhausted,
    WarpInComplete,
}

/// Ability that some selected unit can use now.
#[derive(Debug, Clone, Copy, PartialEq, Eq, Structural)]
pub struct AvailableAbility {
    /// The ability.
    pub id: AbilityId,
    /// Whether the ability needs a target point.
    pub requires_point: bool,
}

/// Power matrix of a pylon or a phasing warp prism.
#[derive(Debug, Clone, Copy, PartialEq, Eq, Structural)]
pub struct PsionicMatrix {
    /// Position of the source.
    pub pos: Point2,
    /// Radius of the matrix.
    pub radius: i32,
    /// Tag of the unit that is the source.
    pub tag: u64,
}

/// Effect that covers some area of the map.
#[derive(Debug, Clone)]
pub struct Effect {
    /// Type of the effect.
    pub id: EffectId,
    /// Positions covered by the effect.
    pub positions: Vec<Point2>,
    /// Whose effect it is.
    pub alliance: Alliance,
    /// Player id of the effect's owner.
    pub owner: u32,
    /// Radius covered around each position.
    pub radius: i32,
}

/// Radar point on the map.
#[derive(Debug, Clone, Copy, PartialEq, Eq, Structural)]
pub struct Radar {
    /// Position of the radar.
    pub pos: Point2,
    /// Radius covered by the radar.
    pub radius: i32,
}

/// What happened to a unit between two observations.
#[derive(Debug, Clone, Copy, PartialEq, Eq, Structural)]
pub enum Event {
    /// A unit died. Holds its tag and, where the bot knew the unit, whose it was.
    UnitDestroyed(u64, Option<Alliance>),
    /// A unit that is no structure appeared among the bot's own.
    UnitCreated(u64),
    /// A structure of the bot appeared, still under construction.
    ConstructionStarted(u64),
    /// Construction of a structure of the bot finished.
    ConstructionComplete(u64),
    /// The race of an opponent who played random was seen.
    RandomRaceDetected(Race),
}

/// What the raw interface of the game tells in one observation.
pub struct RawData {
    /// Power matrices of pylons and phasing warp prisms.
    pub psionic_matrix: Vec<PsionicMatrix>,
    /// Position of the camera.
    pub camera: Point2,
    /// Upgrades that the bot has.
    pub upgrades: Vec<UpgradeId>,
    /// What the bot sees of each cell.
    pub visibility: Grid<Visibility>,
    /// Cells covered with creep.
    pub creep: Grid<bool>,
    /// Tags of the units that died since the observation before.
    pub dead_units: Vec<u64>,
    /// Effects on the map.
    pub effects: Vec<Effect>,
    /// Radars on the map.
    pub radars: Vec<Radar>,
}

/// One observation of the game.
pub struct Observation {
    /// Number of the game's step at which the observation was made.
    pub game_loop: u32,
    /// Common information of the player.
    pub common: Common,
    /// Alerts raised since the observation before.
    pub alerts: Vec<Alert>,
    /// Abilities that the selected units can use.
    pub abilities: Vec<AvailableAbility>,
    /// What the raw interface tells.
    pub raw: RawData,
}

impl Observation {
    /// Number of the game's step at which the observation was made.
    pub fn game_loop(&self) -> (r: u32)
        ensures
            r == self.game_loop,
    {
        self.game_loop
    }
}

/// What is known of the game at the current step.
pub struct GameState {
    /// Actions that the game carried out in the step before.
    pub actions: Vec<Action>,
    /// The observation.
    pub observation: Observation,
    /// Messages in the game chat.
    pub chat: Vec<ChatMessage>,
}

/// What is known of a player when the game starts.
#[derive(Debug, Clone, Copy, PartialEq, Eq, Structural)]
pub struct PlayerInfo {
    /// In-game id of the player.
    pub id: u32,
    /// Race that the player asked for.
    pub race_requested: Race,
    /// Race that the player plays; known of the bot itself only.
    pub race_actual: Option<Race>,
}

/// What is known of the map when the game starts.
pub struct GameInfo {
    /// The players.
    pub players: Vec<PlayerInfo>,
    /// Where the opponents start.
    pub start_locations: Vec<Point2>,
    /// Centre of the map.
    pub map_center: Point2,
    /// Part of the map that is played on.
    pub playable_area: Rect,
    /// Height of the ground of each cell.
    pub terrain_height: Grid<u8>,
    /// Cells on which can be built.
    pub placement_grid: Grid<bool>,
    /// Cells on which ground units can walk.
    pub pathing_grid: Grid<bool>,
}

impl GameInfo {
    /// A map of `width` by `height` cells of which nothing is known: no
    /// players, level ground, and nowhere to walk or to build. `None` where
    /// the number of cells does not fit a `usize`.
    pub fn blank(width: usize, height: usize) -> (r: Option<GameInfo>)
        ensures
            r.is_some() == (width * height <= usize::MAX),
            match r {
                Some(info) => {
                    &&& info.players@.len() == 0
                    &&& info.start_locations@.len() == 0
                    &&& info.playable_area == (Rect { x0: 0, y0: 0, x1: width, y1: height })
                    &&& info.terrain_height.spec_width() == width
                    &&& info.terrain_height.spec_height() == height
                    &&& forall|x: int, y: int|
                        0 <= x < width && 0 <= y < height ==> #[trigger] info.terrain_height.at(x, y)
                            == Some(0u8)
                    &&& forall|x: int, y: int|
                        0 <= x < width && 0 <= y < height ==> #[trigger] info.placement_grid.at(x, y)
                            == Some(false)
                    &&& forall|x: int, y: int|
                        0 <= x < width && 0 <= y < height ==> #[trigger] info.pathing_grid.at(x, y)
                            == Some(false)
                },
                None => true,
            },
    {
        let heights = Grid::filled(width, height, 0u8);
        let placement = Grid::filled(width, height, false);
        let pathing = Grid::filled(width, height, false);
        match (heights, placement, pathing) {
            (Some(terrain_height), Some(placement_grid), Some(pathing_grid)) => Some(
                GameInfo {
                    players: Vec::new(),
                    start_locations: Vec::new(),
                    map_center: Point2 { x: 0, y: 0 },
                    playable_area: Rect { x0: 0, y0: 0, x1: width, y1: height },
                    terrain_height,
                    placement_grid,
                    pathing_grid,
                },
            ),
            _ => None,
        }
    }
}

impl GameState {
    /// The state before the first observation, on a map of `width` by
    /// `height` cells of which nothing was seen. `None` where the number of
    /// cells does not fit a `usize`.
    pub fn blank(width: usize, height: usize) -> (r: Option<GameState>)
        ensures
            r.is_some() == (width * height <= usize::MAX),
            match r {
                Some(state) => {
                    &&& state.actions@.len() == 0
                    &&& state.chat@.len() == 0
                    &&& state.observation.game_loop == 0
                    &&& state.observation.raw.effects@.len() == 0
                    &&& state.observation.raw.upgrades@.len() == 0
                    &&& state.observation.raw.dead_units@.len() == 0
                    &&& forall|x: int, y: int|
                        0 <= x < width && 0 <= y < height
                            ==> #[trigger] state.observation.raw.visibility.at(x, y) == Some(
                            Visibility::Hidden,
                        )
                    &&& forall|x: int, y: int|
                        0 <= x < width && 0 <= y < height ==> #[trigger] state.observation.raw.creep.at(
                            x,
                            y,
                        ) == Some(false)
                },
                None => true,
            },
    {
        let visibility = Grid::filled(width, height, Visibility::Hidden);
        let creep = Grid::filled(width, height, false);
        match (visibility, creep) {
            (Some(visibility), Some(creep)) => Some(
                GameState {
                    actions: Vec::new(),
                    observation: Observation {
                        game_loop: 0,
                        common: Common {
                            player_id: 0,
                            minerals: 0,
                            vespene: 0,
                            food_cap: 0,
                            food_used: 0,
                            food_army: 0,
                            food_workers: 0,
                            idle_worker_count: 0,
                            army_count: 0,
                            warp_gate_count: 0,
                            larva_count: 0,
                        },
                        alerts: Vec::new(),
                        abilities: Vec::new(),
                        raw: RawData {
                            psionic_matrix: Vec::new(),
                            camera: Point2 { x: 0, y: 0 },
                            upgrades: Vec::new(),
                            visibility,
                            creep,
                            dead_units: Vec::new(),
                            effects: Vec::new(),
                            radars: Vec::new(),
                        },
                    },
                    chat: Vec::new(),
                },
            ),
            _ => None,
        }
    }
}

} // verus!
