//! Default configurations for a fast setup.

use vstd::prelude::*;
use vstd::string::StringExecFns;
use crate::protocol::request_create_game::GameMap;
use crate::protocol::request_join_game::Participation;
use crate::protocol::{
    AiBuild, Difficulty, InterfaceOptions, LocalMap, PlayerSetup, PlayerType, PortSet, Race,
    RequestCreateGame, RequestJoinGame,
};

verus! {

/// Default config for fast setup.
pub trait DefaultConfig: Sized {
    /// Whether a value is the default configuration of its type.
    spec fn is_default_config(self) -> bool;

    /// Builds a value using its default configuration.
    fn default_config() -> (config: Self)
        ensures
            config.is_default_config(),
    ;
}

/// Whether a map is the default one, named by its path.
pub open spec fn is_default_map(map: GameMap) -> bool {
    &&& map matches GameMap::LocalMap(local)
    &&& local.map_data is None
    &&& local.map_path matches Some(path)
    &&& path@ == "Ladder2017Season1/AbyssalReefLE.SC2Map"@
}

/// Whether the slots are the default ones: a player against an easy built-in
/// Terran opponent.
pub open spec fn are_default_players(slots: Seq<PlayerSetup>) -> bool {
    &&& slots.len() == 2
    &&& slots[0] == (PlayerSetup { kind: Some(PlayerType::Participant), ..PlayerSetup::unset() })
    &&& slots[1].is_named_bot(
        PlayerType::Computer,
        Race::Terran,
        Difficulty::Easy,
        AiBuild::RandomBuild,
    )
}

impl DefaultConfig for Vec<PlayerSetup> {
    open spec fn is_default_config(self) -> bool {
        are_default_players(self@)
    }

    fn default_config() -> (config: Self) {
        let mut config: Vec<PlayerSetup> = Vec::new();
        config.push(PlayerSetup::player());
        config.push(
            PlayerSetup::custom_bot(Race::Terran, Difficulty::Easy, AiBuild::RandomBuild),
        );
        config
    }
}

impl DefaultConfig for GameMap {
    open spec fn is_default_config(self) -> bool {
        is_default_map(self)
    }

    fn default_config() -> (config: Self) {
        GameMap::LocalMap(
            LocalMap {
                map_path: Some(String::from_str("Ladder2017Season1/AbyssalReefLE.SC2Map")),
                map_data: None,
            },
        )
    }
}

impl DefaultConfig for RequestCreateGame {
    open spec fn is_default_config(self) -> bool {
        &&& are_default_players(self.player_setup@)
        &&& self.disable_fog == Some(false)
        &&& self.random_seed is None
        &&& self.realtime == Some(true)
        &&& self.map matches Some(map)
        &&& is_default_map(map)
    }

    fn default_config() -> (config: Self) {
        RequestCreateGame {
            player_setup: Vec::default_config(),
            disable_fog: Some(false),
            random_seed: None,
            realtime: Some(true),
            map: Some(GameMap::default_config()),
        }
    }
}

impl DefaultConfig for InterfaceOptions {
    open spec fn is_default_config(self) -> bool {
        self == InterfaceOptions::spec_raw_mode()
    }

    fn default_config() -> (config: Self) {
        InterfaceOptions::raw_mode()
    }
}

impl RequestJoinGame {
    /// Whether the request joins as a player of the given race over the raw
    /// interface, with no ports, name or host set.
    pub open spec fn joins_with_race(self, race: Race) -> bool {
        &&& self.participation == Some(Participation::Race(race))
        &&& self.options == Some(InterfaceOptions::spec_raw_mode())
        &&& self.server_ports is None
        &&& self.client_ports@ == Seq::<PortSet>::empty()
        &&& self.shared_port is None
        &&& self.player_name is None
        &&& self.host_ip is None
    }
}

impl DefaultConfig for RequestJoinGame {
    open spec fn is_default_config(self) -> bool {
        self.joins_with_race(Race::Terran)
    }

    fn default_config() -> (config: Self) {
        RequestJoinGame {
            participation: Some(Participation::Race(Race::Terran)),
            options: Some(InterfaceOptions::default_config()),
            server_ports: None,
            client_ports: Vec::new(),
            shared_port: None,
            player_name: None,
            host_ip: None,
        }
    }
}

} // verus!
