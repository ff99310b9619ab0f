//! Ready-made requests and player slots.

use vstd::prelude::*;
use vstd::std_specs::convert::IntoSpec;
use vstd::string::StringExecFns;
use crate::default::DefaultConfig;
use crate::protocol::request::Request as rRequest;
use crate::protocol::request_join_game::Participation;
use crate::protocol::request_start_replay::Replay;
use crate::protocol::{
    AiBuild, Difficulty, InterfaceOptions, PlayerSetup, PlayerType, Race, Request,
    RequestJoinGame, RequestObservation, RequestStartReplay,
};

verus! {

impl RequestJoinGame {
    /// A request to join as a player of the given race, with the default
    /// configuration for everything else.
    pub fn with_race(race: Race) -> (request: Self)
        ensures
            request.joins_with_race(race),
    {
        let base = RequestJoinGame::default_config();
        RequestJoinGame {
            participation: Some(Participation::Race(race)),
            options: base.options,
            server_ports: base.server_ports,
            client_ports: base.client_ports,
            shared_port: base.shared_port,
            player_name: base.player_name,
            host_ip: base.host_ip,
        }
    }
}

impl RequestObservation {
    /// An observation of the given game loop without fog of war.
    pub fn nofog(game_loop: u32) -> (request: Self)
        ensures
            request == (RequestObservation { disable_fog: Some(true), game_loop: Some(game_loop) }),
    {
        RequestObservation { disable_fog: Some(true), game_loop: Some(game_loop) }
    }
}

impl Request {
    /// A request with an identifier.
    pub fn with_id<M: Into<rRequest>>(req: M, id: u32) -> (request: Self)
        ensures
            request.id == Some(id),
            request.request is Some,
            M::obeys_into_spec() ==> request == Request::enveloped(req.into_spec(), id),
    {
        Request { id: Some(id), request: Some(req.into()) }
    }
}

impl PlayerSetup {
    /// Whether the slot is that of a built-in opponent named `SpectreVert`
    /// with the given controller, race, difficulty and build.
    pub open spec fn is_named_bot(
        self,
        kind: PlayerType,
        race: Race,
        difficulty: Difficulty,
        build: AiBuild,
    ) -> bool {
        &&& self.kind == Some(kind)
        &&& self.race == Some(race)
        &&& self.difficulty == Some(difficulty)
        &&& self.ai_build == Some(build)
        &&& self.player_name matches Some(name)
        &&& name@ == "SpectreVert"@
    }

    /// A default observer.
    pub fn observer() -> (slot: Self)
        ensures
            slot == (PlayerSetup { kind: Some(PlayerType::Observer), ..PlayerSetup::unset() }),
    {
        PlayerSetup {
            kind: Some(PlayerType::Observer),
            race: None,
            difficulty: None,
            player_name: None,
            ai_build: None,
        }
    }

    /// A default player.
    pub fn player() -> (slot: Self)
        ensures
            slot == (PlayerSetup { kind: Some(PlayerType::Participant), ..PlayerSetup::unset() }),
    {
        PlayerSetup {
            kind: Some(PlayerType::Participant),
            race: None,
            difficulty: None,
            player_name: None,
            ai_build: None,
        }
    }

    /// A built-in opponent of the given race, difficulty and build.
    pub fn custom_bot(r: Race, d: Difficulty, b: AiBuild) -> (slot: Self)
        ensures
            slot.is_named_bot(PlayerType::Computer, r, d, b),
    {
        PlayerSetup {
            kind: Some(PlayerType::Computer),
            race: Some(r),
            difficulty: Some(d),
            player_name: Some(String::from_str("SpectreVert")),
            ai_build: Some(b),
        }
    }

    /// An easy built-in opponent of a random race.
    pub fn random_bot() -> (slot: Self)
        ensures
            slot.is_named_bot(
                PlayerType::Computer,
                Race::Random,
                Difficulty::Easy,
                AiBuild::RandomBuild,
            ),
    {
        PlayerSetup::custom_bot(Race::Random, Difficulty::Easy, AiBuild::RandomBuild)
    }

    /// A scripted player of a random race that is set up like an easy
    /// built-in opponent.
    pub fn bot() -> (slot: Self)
        ensures
            slot.is_named_bot(
                PlayerType::Participant,
                Race::Random,
                Difficulty::Easy,
                AiBuild::RandomBuild,
            ),
    {
        PlayerSetup {
            kind: Some(PlayerType::Participant),
            race: Some(Race::Random),
            difficulty: Some(Difficulty::Easy),
            player_name: Some(String::from_str("SpectreVert")),
            ai_build: Some(AiBuild::RandomBuild),
        }
    }

    /// A player of the given race.
    pub fn player_with_race(race: Race) -> (slot: Self)
        ensures
            slot == (PlayerSetup {
                kind: Some(PlayerType::Participant),
                race: Some(race),
                ..PlayerSetup::unset()
            }),
    {
        PlayerSetup {
            kind: Some(PlayerType::Participant),
            race: Some(race),
            difficulty: None,
            player_name: None,
            ai_build: None,
        }
    }

    /// An easy built-in opponent of the given race.
    pub fn default_bot_with_race(race: Race) -> (slot: Self)
        ensures
            slot.is_named_bot(PlayerType::Computer, race, Difficulty::Easy, AiBuild::RandomBuild),
    {
        PlayerSetup {
            kind: Some(PlayerType::Computer),
            race: Some(race),
            difficulty: Some(Difficulty::Easy),
            player_name: Some(String::from_str("SpectreVert")),
            ai_build: Some(AiBuild::RandomBuild),
        }
    }
}

impl InterfaceOptions {
    /// The options of the raw interface.
    pub open spec fn spec_raw_mode() -> InterfaceOptions {
        InterfaceOptions {
            raw: Some(true),
            score: Some(true),
            feature_layer: None,
            render: None,
            show_cloaked: Some(false),
            show_burrowed_shadows: Some(false),
            show_placeholders: Some(true),
            raw_affects_selection: Some(true),
            raw_crop_to_playable_area: Some(false),
        }
    }

    /// The options of the raw interface: raw data and score, placeholders
    /// shown, cloaked and burrowed units hidden, the selection affected by
    /// raw actions, and coordinates of the whole map.
    #[verifier::when_used_as_spec(spec_raw_mode)]
    pub fn raw_mode() -> (options: Self)
        ensures
            options == InterfaceOptions::spec_raw_mode(),
    {
        InterfaceOptions {
            raw: Some(true),
            score: Some(true),
            feature_layer: None,
            render: None,
            show_cloaked: Some(false),
            show_burrowed_shadows: Some(false),
            show_placeholders: Some(true),
            raw_affects_selection: Some(true),
            raw_crop_to_playable_area: Some(false),
        }
    }
}

impl RequestStartReplay {
    /// A request to replay the file at the given path.
    pub fn from_file(file: String) -> (request: Self)
        ensures
            request == (RequestStartReplay {
                map_data: None,
                observed_player_id: None,
                options: None,
                disable_fog: None,
                realtime: None,
                record_replay: None,
                replay: Some(Replay::ReplayPath(file)),
            }),
    {
        RequestStartReplay {
            map_data: None,
            observed_player_id: None,
            options: None,
            disable_fog: None,
            realtime: None,
            record_replay: None,
            replay: Some(Replay::ReplayPath(file)),
        }
    }
}

} // verus!
