//! Plain-value model of the messages exchanged with the game instance.
//!
//! Only what the client logic reads or fills is modelled here; everything
//! else travels as encoded bytes that the transport layer understands.

use vstd::prelude::*;

pub mod request;
pub mod request_create_game;
pub mod request_join_game;
pub mod request_start_replay;
pub mod response;

verus! {

/// Phase of the game instance, as reported with every response.
#[derive(Debug, Clone, Copy, PartialEq, Eq, Structural)]
pub enum Status {
    /// The instance is running and no game has been created.
    Launched,
    /// A game has been created and waits for its players.
    InitGame,
    /// A game is being played.
    InGame,
    /// A replay is being played.
    InReplay,
    /// The game or replay is over.
    Ended,
    /// The instance is shutting down.
    Quit,
    /// The instance could not say.
    Unknown,
}

/// Playable races.
#[derive(Debug, Clone, Copy, PartialEq, Eq, Structural)]
pub enum Race {
    NoRace,
    Terran,
    Zerg,
    Protoss,
    Random,
}

/// Who controls a player slot.
#[derive(Debug, Clone, Copy, PartialEq, Eq, Structural)]
pub enum PlayerType {
    Participant,
    Computer,
    Observer,
}

/// Strength of a built-in opponent.
#[derive(Debug, Clone, Copy, PartialEq, Eq, Structural)]
pub enum Difficulty {
    VeryEasy,
    Easy,
    Medium,
    MediumHard,
    Hard,
    Harder,
    VeryHard,
    CheatVision,
    CheatMoney,
    CheatInsane,
}

/// Opening strategy of a built-in opponent.
#[derive(Debug, Clone, Copy, PartialEq, Eq, Structural)]
pub enum AiBuild {
    RandomBuild,
    Rush,
    Timing,
    Power,
    Macro,
    Air,
}

/// One player slot of a game to create.
#[derive(Debug, Clone, PartialEq, Eq)]
pub struct PlayerSetup {
    pub kind: Option<PlayerType>,
    pub race: Option<Race>,
    pub difficulty: Option<Difficulty>,
    pub player_name: Option<String>,
    pub ai_build: Option<AiBuild>,
}

/// A map stored on the machine that runs the game instance.
#[derive(Debug, Clone, PartialEq, Eq)]
pub struct LocalMap {
    pub map_path: Option<String>,
    pub map_data: Option<Vec<u8>>,
}

/// Request to create a game.
#[derive(Debug, Clone, PartialEq, Eq)]
pub struct RequestCreateGame {
    pub map: Option<request_create_game::GameMap>,
    pub player_setup: Vec<PlayerSetup>,
    pub disable_fog: Option<bool>,
    pub random_seed: Option<u32>,
    pub realtime: Option<bool>,
}

/// Width and height in pixels.
#[derive(Debug, Clone, Copy, PartialEq, Eq, Structural)]
pub struct Size2DI {
    pub x: Option<i32>,
    pub y: Option<i32>,
}

/// Resolution of a rendered interface.
#[derive(Debug, Clone, Copy, PartialEq, Eq, Structural)]
pub struct SpatialCameraSetup {
    pub resolution: Option<Size2DI>,
    pub minimap_resolution: Option<Size2DI>,
}

/// Which interfaces the instance should expose to the client.
#[derive(Debug, Clone, Copy, PartialEq, Eq, Structural)]
pub struct InterfaceOptions {
    pub raw: Option<bool>,
    pub score: Option<bool>,
    pub feature_layer: Option<SpatialCameraSetup>,
    pub render: Option<SpatialCameraSetup>,
    /// By default cloaked units are completely hidden. This shows some details.
    pub show_cloaked: Option<bool>,
    /// By default burrowed units are completely hidden. This shows some details
    /// for those that produce a shadow.
    pub show_burrowed_shadows: Option<bool>,
    /// Return placeholder units (buildings to be constructed).
    pub show_placeholders: Option<bool>,
    /// When set, raw actions select and act without reverting the selection.
    pub raw_affects_selection: Option<bool>,
    /// Makes raw coordinates relative to the playable area.
    pub raw_crop_to_playable_area: Option<bool>,
}

/// A pair of ports used in multiplayer games.
#[derive(Debug, Clone, Copy, PartialEq, Eq, Structural)]
pub struct PortSet {
    pub game_port: Option<i32>,
    pub base_port: Option<i32>,
}

/// Request to join a created game.
#[derive(Debug, Clone, PartialEq, Eq)]
pub struct RequestJoinGame {
    pub participation: Option<request_join_game::Participation>,
    pub options: Option<InterfaceOptions>,
    pub server_ports: Option<PortSet>,
    pub client_ports: Vec<PortSet>,
    pub shared_port: Option<i32>,
    pub player_name: Option<String>,
    pub host_ip: Option<String>,
}

/// Request to start a replay.
#[derive(Debug, Clone, PartialEq, Eq)]
pub struct RequestStartReplay {
    pub replay: Option<request_start_replay::Replay>,
    pub map_data: Option<Vec<u8>>,
    pub observed_player_id: Option<i32>,
    pub options: Option<InterfaceOptions>,
    pub disable_fog: Option<bool>,
    pub realtime: Option<bool>,
    pub record_replay: Option<bool>,
}

/// Request to restart the game that just ended.
#[derive(Debug, Clone, Copy, PartialEq, Eq, Structural)]
pub struct RequestRestartGame {}

/// Request to leave the current game.
#[derive(Debug, Clone, Copy, PartialEq, Eq, Structural)]
pub struct RequestLeaveGame {}

/// Request to shut the instance down.
#[derive(Debug, Clone, Copy, PartialEq, Eq, Structural)]
pub struct RequestQuit {}

/// Request for the static description of the current game.
#[derive(Debug, Clone, Copy, PartialEq, Eq, Structural)]
pub struct RequestGameInfo {}

/// Request that is answered without touching the game.
#[derive(Debug, Clone, Copy, PartialEq, Eq, Structural)]
pub struct RequestPing {}

/// Request for a snapshot of the game state.
#[derive(Debug, Clone, Copy, PartialEq, Eq, Structural)]
pub struct RequestObservation {
    pub disable_fog: Option<bool>,
    pub game_loop: Option<u32>,
}

/// Request to perform actions, in their encoded form.
#[derive(Debug, Clone, PartialEq, Eq)]
pub struct RequestAction {
    pub actions: Vec<Vec<u8>>,
}

/// A request together with the identifier that its response will echo.
#[derive(Debug, Clone, PartialEq, Eq)]
pub struct Request {
    pub id: Option<u32>,
    pub request: Option<request::Request>,
}

impl PlayerSetup {
    /// A slot in which nothing is set.
    pub open spec fn unset() -> PlayerSetup {
        PlayerSetup { kind: None, race: None, difficulty: None, player_name: None, ai_build: None }
    }
}

impl Default for PlayerSetup {
    fn default() -> (slot: Self)
        ensures
            slot == PlayerSetup::unset(),
    {
        PlayerSetup { kind: None, race: None, difficulty: None, player_name: None, ai_build: None }
    }
}

impl InterfaceOptions {
    /// Options in which nothing is set.
    pub open spec fn unset() -> InterfaceOptions {
        InterfaceOptions {
            raw: None,
            score: None,
            feature_layer: None,
            render: None,
            show_cloaked: None,
            show_burrowed_shadows: None,
            show_placeholders: None,
            raw_affects_selection: None,
            raw_crop_to_playable_area: None,
        }
    }
}

impl Default for InterfaceOptions {
    fn default() -> (options: Self)
        ensures
            options == InterfaceOptions::unset(),
    {
        InterfaceOptions {
            raw: None,
            score: None,
            feature_layer: None,
            render: None,
            show_cloaked: None,
            show_burrowed_shadows: None,
            show_placeholders: None,
            raw_affects_selection: None,
            raw_crop_to_playable_area: None,
        }
    }
}

impl Default for RequestCreateGame {
    fn default() -> (request: Self)
        ensures
            request.map is None,
            request.player_setup@.len() == 0,
            request.disable_fog is None,
            request.random_seed is None,
            request.realtime is None,
    {
        RequestCreateGame {
            map: None,
            player_setup: Vec::new(),
            disable_fog: None,
            random_seed: None,
            realtime: None,
        }
    }
}

impl Default for RequestJoinGame {
    fn default() -> (request: Self)
        ensures
            request.participation is None,
            request.options is None,
            request.server_ports is None,
            request.client_ports@.len() == 0,
            request.shared_port is None,
            request.player_name is None,
            request.host_ip is None,
    {
        RequestJoinGame {
            participation: None,
            options: None,
            server_ports: None,
            client_ports: Vec::new(),
            shared_port: None,
            player_name: None,
            host_ip: None,
        }
    }
}

impl Default for RequestObservation {
    fn default() -> (request: Self)
        ensures
            request == (RequestObservation { disable_fog: None, game_loop: None }),
    {
        RequestObservation { disable_fog: None, game_loop: None }
    }
}

impl Default for Request {
    fn default() -> (request: Self)
        ensures
            request == (Request { id: None, request: None }),
    {
        Request { id: None, request: None }
    }
}

impl Request {
    /// A request with the identifier `id`.
    pub open spec fn enveloped(request: request::Request, id: u32) -> Request {
        Request { id: Some(id), request: Some(request) }
    }
}

/// Snapshot of the game state, in its encoded form.
#[derive(Debug, Clone, PartialEq, Eq)]
pub struct Observation {
    pub game_loop: Option<u32>,
    pub encoded: Vec<u8>,
}

/// Answer to a [`RequestObservation`].
#[derive(Debug, Clone, PartialEq, Eq)]
pub struct ResponseObservation {
    pub observation: Option<Observation>,
}

/// Answer to a [`RequestGameInfo`], in its encoded form.
#[derive(Debug, Clone, PartialEq, Eq)]
pub struct ResponseGameInfo {
    pub encoded: Vec<u8>,
}

/// Answer to a lifecycle request; `error` holds the failure code, if any.
#[derive(Debug, Clone, PartialEq, Eq)]
pub struct ResponseOutcome {
    pub error: Option<i32>,
    pub error_details: Option<String>,
}

/// A response together with the identifier of the request it answers.
#[derive(Debug, Clone, PartialEq, Eq)]
pub struct Response {
    pub id: Option<u32>,
    pub status: Option<Status>,
    pub response: Option<response::Response>,
    pub error: Vec<String>,
}

} // verus!
