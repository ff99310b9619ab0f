use rsc2::default::DefaultConfig;
use rsc2::definitions::{create_game, find_participant_race, from_path, local_map, Player, ToMapRef};
use rsc2::hook::NextRequest;
use rsc2::protocol::request::Request as rRequest;
use rsc2::protocol::request_create_game::GameMap;
use rsc2::protocol::request_join_game::Participation;
use rsc2::protocol::request_start_replay::Replay;
use rsc2::protocol::{
    AiBuild, Difficulty, InterfaceOptions, LocalMap, PlayerSetup, PlayerType, Race, Request,
    RequestCreateGame, RequestJoinGame, RequestObservation, RequestQuit, RequestStartReplay,
};
use rsc2::result::EncodeResult;

use prost::Message;

fn slot(kind: PlayerType) -> PlayerSetup {
    PlayerSetup { kind: Some(kind), race: None, difficulty: None, player_name: None, ai_build: None }
}

fn named_bot(kind: PlayerType, race: Race) -> PlayerSetup {
    PlayerSetup {
        kind: Some(kind),
        race: Some(race),
        difficulty: Some(Difficulty::Easy),
        player_name: Some("SpectreVert".to_string()),
        ai_build: Some(AiBuild::RandomBuild),
    }
}

#[test]
fn player_slots() {
    assert_eq!(PlayerSetup::observer(), slot(PlayerType::Observer));
    assert_eq!(PlayerSetup::player(), slot(PlayerType::Participant));
    assert_eq!(PlayerSetup::default(), PlayerSetup { kind: None, ..slot(PlayerType::Observer) });
    assert_eq!(
        PlayerSetup::player_with_race(Race::Protoss),
        PlayerSetup { race: Some(Race::Protoss), ..slot(PlayerType::Participant) }
    );
    assert_eq!(PlayerSetup::random_bot(), named_bot(PlayerType::Computer, Race::Random));
    assert_eq!(PlayerSetup::bot(), named_bot(PlayerType::Participant, Race::Random));
    assert_eq!(
        PlayerSetup::default_bot_with_race(Race::Zerg),
        named_bot(PlayerType::Computer, Race::Zerg)
    );
    assert_eq!(
        PlayerSetup::custom_bot(Race::Terran, Difficulty::CheatInsane, AiBuild::Air),
        PlayerSetup {
            difficulty: Some(Difficulty::CheatInsane),
            ai_build: Some(AiBuild::Air),
            ..named_bot(PlayerType::Computer, Race::Terran)
        }
    );
}

#[test]
fn raw_mode_options() {
    let raw = InterfaceOptions::raw_mode();
    assert_eq!(
        raw,
        InterfaceOptions {
            raw: Some(true),
            score: Some(true),
            feature_layer: None,
            render: None,
            show_cloaked: Some(false),
            show_burrowed_shadows: Some(false),
            show_placeholders: Some(true),
            raw_affects_selection: Some(true),
            raw_crop_to_playable_area: Some(false),
        }
    );
    assert_eq!(InterfaceOptions::default_config(), raw);
    assert_eq!(InterfaceOptions::default().raw, None);
}

#[test]
fn default_configs() {
    let players = Vec::<PlayerSetup>::default_config();
    assert_eq!(
        players,
        vec![slot(PlayerType::Participant), named_bot(PlayerType::Computer, Race::Terran)]
    );
    let map = GameMap::default_config();
    assert_eq!(
        map,
        GameMap::LocalMap(LocalMap {
            map_path: Some("Ladder2017Season1/AbyssalReefLE.SC2Map".to_string()),
            map_data: None
        })
    );
    assert_eq!(
        RequestCreateGame::default_config(),
        RequestCreateGame {
            player_setup: players,
            disable_fog: Some(false),
            random_seed: None,
            realtime: Some(true),
            map: Some(map),
        }
    );
    let join = RequestJoinGame::default_config();
    assert_eq!(
        join,
        RequestJoinGame {
            participation: Some(Participation::Race(Race::Terran)),
            options: Some(InterfaceOptions::raw_mode()),
            server_ports: None,
            client_ports: vec![],
            shared_port: None,
            player_name: None,
            host_ip: None,
        }
    );
    assert_eq!(
        RequestJoinGame::with_race(Race::Zerg),
        RequestJoinGame { participation: Some(Participation::Race(Race::Zerg)), ..join }
    );
}

#[test]
fn requests_with_identifiers() {
    assert_eq!(
        RequestObservation::nofog(12),
        RequestObservation { disable_fog: Some(true), game_loop: Some(12) }
    );
    assert_eq!(
        Request::with_id(RequestObservation::nofog(0), u32::MAX),
        Request {
            id: Some(u32::MAX),
            request: Some(rRequest::Observation(RequestObservation::nofog(0)))
        }
    );
    assert_eq!(
        Request::with_id(RequestQuit {}, 42),
        Request { id: Some(42), request: Some(rRequest::Quit(RequestQuit {})) }
    );
    assert_eq!(
        Request::with_id(rRequest::Quit(RequestQuit {}), 1).request,
        Some(rRequest::Quit(RequestQuit {}))
    );
    assert_eq!(Request::default(), Request { id: None, request: None });
    let replay = RequestStartReplay::from_file("games/last.SC2Replay".to_string());
    assert_eq!(replay.replay, Some(Replay::ReplayPath("games/last.SC2Replay".to_string())));
    assert_eq!(replay.options, None);
    assert_eq!(replay.realtime, None);
    let map: GameMap = LocalMap { map_path: None, map_data: Some(vec![1]) }.into();
    assert_eq!(map, GameMap::LocalMap(LocalMap { map_path: None, map_data: Some(vec![1]) }));
}

#[test]
fn next_request_from_an_optional_request() {
    assert!(matches!(NextRequest::from(None), NextRequest::Observation));
    assert!(matches!(
        NextRequest::from(Some(rRequest::Quit(RequestQuit {}))),
        NextRequest::Agent(rRequest::Quit(_))
    ));
}

#[test]
fn players_become_slots() {
    let human = Player::participant("yolo, in the game", Race::Terran);
    assert_eq!(
        human.into_setup(),
        PlayerSetup {
            kind: Some(PlayerType::Participant),
            race: Some(Race::Terran),
            difficulty: None,
            player_name: Some("yolo, in the game".to_string()),
            ai_build: None,
        }
    );
    let again: PlayerSetup = Player::participant("p".to_string(), Race::Random).into();
    assert_eq!(again.player_name, Some("p".to_string()));
    assert_eq!(again.kind, Some(PlayerType::Participant));
    let cheese = Player::bot("sentient cheese dip".to_string(), Race::Zerg, Difficulty::Easy);
    assert_eq!(
        cheese.into_setup(),
        PlayerSetup {
            kind: Some(PlayerType::Computer),
            race: Some(Race::Zerg),
            difficulty: Some(Difficulty::Easy),
            player_name: Some("sentient cheese dip".to_string()),
            ai_build: None,
        }
    );
}

#[test]
fn maps_by_path() {
    let local = GameMap::LocalMap(LocalMap { map_path: Some("a/b.SC2Map".to_string()), map_data: None });
    assert_eq!(from_path("a/b.SC2Map".to_string(), true), local);
    assert_eq!(
        from_path("Ephemeron LE".to_string(), false),
        GameMap::BattlenetMapName("Ephemeron LE".to_string())
    );
    assert_eq!(local_map("a/b.SC2Map".to_string()), local);
    assert_eq!(local.clone().to_map(), local);
}

#[test]
fn setup_joins_as_the_first_participant() {
    let players = vec![
        PlayerSetup::observer(),
        PlayerSetup::default_bot_with_race(Race::Zerg),
        PlayerSetup::player_with_race(Race::Protoss),
        PlayerSetup::player_with_race(Race::Terran),
    ];
    assert_eq!(find_participant_race(&players), Some(Race::Protoss));
    let map = local_map("m".to_string());
    let (create, join) = create_game(players.clone(), map.clone(), true);
    assert_eq!(
        create,
        RequestCreateGame {
            map: Some(map.clone()),
            player_setup: players,
            disable_fog: None,
            random_seed: None,
            realtime: Some(true),
        }
    );
    assert_eq!(
        join,
        RequestJoinGame {
            participation: Some(Participation::Race(Race::Protoss)),
            options: Some(InterfaceOptions { raw: Some(true), ..InterfaceOptions::default() }),
            ..RequestJoinGame::default()
        }
    );
    // The first participant decides, also where it names no race.
    let unnamed = vec![PlayerSetup::player(), PlayerSetup::player_with_race(Race::Zerg)];
    assert_eq!(find_participant_race(&unnamed), None);
    let (_, join) = create_game(unnamed, map.clone(), false);
    assert_eq!(join.participation, None);
    assert_eq!(find_participant_race(&vec![]), None);
    assert_eq!(find_participant_race(&vec![PlayerSetup::random_bot()]), None);
    let (create, _) = create_game(vec![], map, false);
    assert_eq!(create.realtime, Some(false));
}

#[test]
fn encode_results() {
    assert_eq!(EncodeResult::from(Ok(vec![1, 2])).unwrap(), vec![1, 2]);
    let quit = EncodeResult::EncodeOk(vec![66, 0]);
    assert_eq!(EncodeResult::EncodeOk(vec![9]).unwrap_or_quit(quit), vec![9]);
    let too_small = rsc2_encode_error();
    let quit = EncodeResult::EncodeOk(vec![66, 0]);
    assert_eq!(EncodeResult::from(Err(too_small)).unwrap_or_quit(quit), vec![66, 0]);
    assert_eq!(
        EncodeResult::EncodeErr(rsc2_encode_error()).ok_or_quit(EncodeResult::EncodeOk(vec![1])),
        Some(vec![1])
    );
    assert_eq!(
        EncodeResult::EncodeErr(rsc2_encode_error())
            .ok_or_quit(EncodeResult::EncodeErr(rsc2_encode_error())),
        None
    );
    assert_eq!(
        EncodeResult::EncodeOk(vec![3]).ok_or_quit(EncodeResult::EncodeErr(rsc2_encode_error())),
        Some(vec![3])
    );
}

/// An encoding that fails: a message that does not fit its buffer.
fn rsc2_encode_error() -> prost::EncodeError {
    let mut small = [0u8; 1];
    let mut buffer = &mut small[..];
    "too long for one byte".to_string().encode(&mut buffer).unwrap_err()
}
