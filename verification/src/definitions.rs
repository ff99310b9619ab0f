//! Players, maps, and the requests that set up a game.

use vstd::prelude::*;
use vstd::std_specs::convert::{FromSpecImpl, IntoSpec};
use crate::protocol::request_create_game::GameMap;
use crate::protocol::request_join_game::Participation;
use crate::protocol::{
    InterfaceOptions, LocalMap, PlayerSetup, PlayerType, RequestCreateGame, RequestJoinGame,
};

pub use crate::protocol::Difficulty;
pub use crate::protocol::Race;

verus! {

/// A player of a game to create.
#[derive(Debug, Clone, Copy, PartialEq, Eq)]
pub struct Player<T> where T: Into<String> {
    name: T,
    race: Race,
    kind: PlayerType,
    difficulty: Option<Difficulty>,
}

/// What a player is made of.
pub struct PlayerView<T> {
    pub name: T,
    pub race: Race,
    pub kind: PlayerType,
    pub difficulty: Option<Difficulty>,
}

impl<T> View for Player<T> where T: Into<String> {
    type V = PlayerView<T>;

    closed spec fn view(&self) -> PlayerView<T> {
        PlayerView {
            name: self.name,
            race: self.race,
            kind: self.kind,
            difficulty: self.difficulty,
        }
    }
}

impl<T> Player<T> where T: Into<String> {
    /// A player who takes part in the game.
    pub fn participant(name: T, race: Race) -> (player: Self)
        ensures
            player@ == (PlayerView {
                name,
                race,
                kind: PlayerType::Participant,
                difficulty: None,
            }),
    {
        Player { name, race, kind: PlayerType::Participant, difficulty: None }
    }

    /// A built-in opponent.
    pub fn bot(name: T, race: Race, difficulty: Difficulty) -> (player: Self)
        ensures
            player@ == (PlayerView {
                name,
                race,
                kind: PlayerType::Computer,
                difficulty: Some(difficulty),
            }),
    {
        Player { name, race, kind: PlayerType::Computer, difficulty: Some(difficulty) }
    }

    /// The slot of the player in a request to create a game.
    pub fn into_setup(self) -> (slot: PlayerSetup)
        ensures
            slot.kind == Some(self@.kind),
            slot.race == Some(self@.race),
            slot.difficulty == self@.difficulty,
            slot.ai_build is None,
            slot.player_name is Some,
            T::obeys_into_spec() ==> slot.player_name == Some(self@.name.into_spec()),
    {
        PlayerSetup {
            player_name: Some(self.name.into()),
            kind: Some(self.kind),
            race: Some(self.race),
            difficulty: self.difficulty,
            ai_build: None,
        }
    }
}

impl<T> From<Player<T>> for PlayerSetup where T: Into<String> {
    /// The slot of the player in a request to create a game.
    fn from(player: Player<T>) -> (slot: PlayerSetup)
        ensures
            slot.kind == Some(player@.kind),
            slot.race == Some(player@.race),
            slot.difficulty == player@.difficulty,
            slot.ai_build is None,
            slot.player_name is Some,
            T::obeys_into_spec() ==> slot.player_name == Some(player@.name.into_spec()),
    {
        player.into_setup()
    }
}

impl<T> FromSpecImpl<Player<T>> for PlayerSetup where T: Into<String> {
    open spec fn obeys_from_spec() -> bool {
        false
    }

    open spec fn from_spec(player: Player<T>) -> PlayerSetup {
        PlayerSetup {
            kind: Some(player@.kind),
            race: Some(player@.race),
            difficulty: player@.difficulty,
            ai_build: None,
            player_name: None,
        }
    }
}

/// The map named by a path: the local file where the path leads to one, and
/// else the published map of that name.
pub fn from_path(path: String, is_file: bool) -> (map: GameMap)
    ensures
        map == if is_file {
            GameMap::LocalMap(LocalMap { map_path: Some(path), map_data: None })
        } else {
            GameMap::BattlenetMapName(path)
        },
{
    if is_file {
        GameMap::LocalMap(LocalMap { map_path: Some(path), map_data: None })
    } else {
        GameMap::BattlenetMapName(path)
    }
}

/// The local map at the given path.
pub fn local_map(path: String) -> (map: GameMap)
    ensures
        map == GameMap::LocalMap(LocalMap { map_path: Some(path), map_data: None }),
{
    GameMap::LocalMap(LocalMap { map_path: Some(path), map_data: None })
}

/// Something that names a map.
pub trait ToMapRef {
    /// The map that is named.
    fn to_map(self) -> GameMap;
}

impl ToMapRef for GameMap {
    fn to_map(self) -> (map: GameMap)
        ensures
            map == self,
    {
        self
    }
}

/// The race of the first slot that is a participant's, if that slot names
/// one.
pub open spec fn participant_race(slots: Seq<PlayerSetup>) -> Option<Race>
    decreases slots.len(),
{
    if slots.len() == 0 {
        None
    } else if slots[0].kind == Some(PlayerType::Participant) {
        slots[0].race
    } else {
        participant_race(slots.skip(1))
    }
}

/// The race of the first slot that is a participant's, if that slot names
/// one.
pub fn find_participant_race(players: &Vec<PlayerSetup>) -> (race: Option<Race>)
    ensures
        race == participant_race(players@),
{
    let mut i: usize = 0;
    proof {
        assert(players@.skip(0) =~= players@);
    }
    while i < players.len()
        invariant
            i <= players.len(),
            participant_race(players@) == participant_race(players@.skip(i as int)),
        decreases players.len() - i,
    {
        let slot = &players[i];
        proof {
            assert(players@.skip(i as int)[0] == players@[i as int]);
            assert(players@.skip(i as int).skip(1) =~= players@.skip(i + 1));
        }
        match slot.kind {
            Some(PlayerType::Participant) => {
                return slot.race;
            },
            _ => {},
        }
        i += 1;
    }
    None
}

/// The requests that set up a game: the one that creates it with the given
/// slots and map, and the one that joins it over the raw interface as the
/// race of the first participant.
pub fn create_game(players: Vec<PlayerSetup>, map: GameMap, realtime: bool) -> (requests: (
    RequestCreateGame,
    RequestJoinGame,
))
    ensures
        requests.0 == (RequestCreateGame {
            player_setup: players,
            map: Some(map),
            realtime: Some(realtime),
            disable_fog: None,
            random_seed: None,
        }),
        requests.1.participation == match participant_race(players@) {
            Some(race) => Some(Participation::Race(race)),
            None => None,
        },
        requests.1.options == Some(
            InterfaceOptions { raw: Some(true), ..InterfaceOptions::unset() },
        ),
        requests.1.server_ports is None,
        requests.1.client_ports@.len() == 0,
        requests.1.shared_port is None,
        requests.1.player_name is None,
        requests.1.host_ip is None,
{
    let participant_race = find_participant_race(&players);
    let mut create_game = RequestCreateGame::default();
    create_game.player_setup = players;
    create_game.map = Some(map);
    create_game.realtime = Some(realtime);
    let mut join_game = RequestJoinGame::default();
    join_game.participation = match participant_race {
        Some(race) => Some(Participation::Race(race)),
        None => None,
    };
    let mut options = InterfaceOptions::default();
    options.raw = Some(true);
    join_game.options = Some(options);
    (create_game, join_game)
}

} // verus!
