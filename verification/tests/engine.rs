use rsc2::bot::{Bot, BotConfig, Configurable};
use rsc2::default::DefaultConfig;
use rsc2::engine::{
    handle_response, play_to_completion, ArgKind, OwnedMessage, Phase, ProtocolArg, ProtocolState,
    ProtocolStateMachine, SharedState,
};
use rsc2::protocol::request::Request as rRequest;
use rsc2::protocol::response::Response as rResponse;
use rsc2::protocol::{
    Observation, Race, Request, RequestCreateGame, RequestJoinGame, RequestObservation, Response,
    ResponseGameInfo, ResponseObservation, Status,
};

#[derive(Debug, Default)]
struct Ticks(Vec<u32>);

impl Configurable for Ticks {
    fn bot_config(&self) -> BotConfig {
        BotConfig { race: Race::Zerg }
    }
}

impl Bot for Ticks {
    fn on_start(&mut self, _: ResponseGameInfo) -> Option<Request> {
        None
    }
    fn on_step(&mut self, _: Observation, tick: u32) -> Option<Request> {
        self.0.push(tick);
        None
    }
    fn on_end(&mut self) -> Option<Request> {
        None
    }
}

fn observation(status: Status, game_loop: u32) -> OwnedMessage {
    OwnedMessage::Binary(Some(Response {
        id: Some(game_loop),
        status: Some(status),
        response: Some(rResponse::Observation(ResponseObservation {
            observation: Some(Observation { game_loop: Some(game_loop), encoded: vec![7] }),
        })),
        error: vec![],
    }))
}

#[test]
fn replies_during_a_game() {
    assert_eq!(
        handle_response(observation(Status::InGame, 3)),
        Ok(Some(Observation { game_loop: Some(3), encoded: vec![7] }))
    );
    assert_eq!(handle_response(observation(Status::Ended, 3)), Err(Status::Ended));
    assert_eq!(handle_response(OwnedMessage::Other), Ok(None));
    assert_eq!(handle_response(OwnedMessage::Binary(None)), Ok(None));
    let no_status = OwnedMessage::Binary(Some(Response {
        id: None,
        status: None,
        response: Some(rResponse::Ping),
        error: vec![],
    }));
    assert_eq!(handle_response(no_status), Ok(None));
    // A response without a body does not end the game, whatever its status.
    let no_body = OwnedMessage::Binary(Some(Response {
        id: None,
        status: Some(Status::Ended),
        response: None,
        error: vec![],
    }));
    assert_eq!(handle_response(no_body), Ok(None));
    let other = OwnedMessage::Binary(Some(Response {
        id: None,
        status: Some(Status::InGame),
        response: Some(rResponse::Ping),
        error: vec![],
    }));
    assert_eq!(handle_response(other), Ok(None));
    let empty = OwnedMessage::Binary(Some(Response {
        id: None,
        status: Some(Status::InGame),
        response: Some(rResponse::Observation(ResponseObservation { observation: None })),
        error: vec![],
    }));
    assert_eq!(handle_response(empty), Ok(None));
}

#[test]
fn a_game_of_the_synchronous_engine() {
    let state: ProtocolState<Ticks> = ProtocolState::connected();
    assert_eq!(state.phase(), Phase::Launched);
    assert_eq!(
        state.request(&ProtocolArg::CreateGame),
        Some(Request {
            id: Some(0),
            request: Some(rRequest::CreateGame(RequestCreateGame::default_config()))
        })
    );
    assert_eq!(state.request(&ProtocolArg::PlayGame), None);
    let state = state.run(ProtocolArg::CreateGame, Some(OwnedMessage::Other));
    assert_eq!(state.phase(), Phase::InitGame);
    match &state {
        ProtocolState::InitGame(sm) => {
            assert_eq!(sm.shared.last_response, Some(OwnedMessage::Other))
        }
        _ => panic!("a game was created"),
    }
    let join = ProtocolArg::JoinGame(Ticks::default());
    assert_eq!(join.kind(), ArgKind::JoinGame);
    assert_eq!(
        state.request(&join),
        Some(Request {
            id: Some(1),
            request: Some(rRequest::JoinGame(RequestJoinGame::with_race(Race::Zerg)))
        })
    );
    let mut state = state.run(join, None);
    assert_eq!(state.phase(), Phase::InGame);
    // A step that the state does not offer leaves it as it is.
    state = state.run(ProtocolArg::LeaveGame, None);
    assert_eq!(state.phase(), Phase::InGame);

    for game_loop in 0..3 {
        assert_eq!(
            state.request(&ProtocolArg::PlayGame),
            Some(Request {
                id: Some(game_loop),
                request: Some(rRequest::Observation(RequestObservation::nofog(game_loop)))
            })
        );
        let reply = if game_loop == 1 { None } else { Some(observation(Status::InGame, game_loop)) };
        state = state.run(ProtocolArg::PlayGame, reply);
        assert_eq!(state.phase(), Phase::InGame);
    }
    state = state.run(ProtocolArg::PlayGame, Some(observation(Status::Ended, 3)));
    assert_eq!(state.phase(), Phase::Ended);
    match &state {
        ProtocolState::Ended(sm) => {
            assert_eq!(sm.shared.bot.as_ref().unwrap().0, vec![0, 2]);
            assert_eq!(sm.shared.current_loop, 3);
        }
        _ => panic!("the game has ended"),
    }
    let state = state.run(ProtocolArg::RestartGame, None);
    assert_eq!(state.phase(), Phase::InGame);
    let state = state.run(ProtocolArg::PlayGame, Some(observation(Status::Ended, 3)));
    let state = state.run(ProtocolArg::LeaveGame, None);
    assert_eq!(state.phase(), Phase::Closed);
    assert_eq!(state.request(&ProtocolArg::CreateGame), None);
    let state = state.run(ProtocolArg::CreateGame, None);
    assert_eq!(state.phase(), Phase::CloseGame);
    let state = state.run(ProtocolArg::CreateGame, None);
    assert_eq!(state.phase(), Phase::CloseGame);
}

#[test]
fn replay_and_direct_join() {
    let state: ProtocolState<Ticks> = ProtocolState::connected();
    let state = state.run(ProtocolArg::StartReplay, None);
    assert_eq!(state.phase(), Phase::InReplay);
    let state = state.run(ProtocolArg::PlayGame, None);
    assert_eq!(state.phase(), Phase::InReplay);
    let state: ProtocolState<Ticks> = ProtocolState::connected();
    let join = ProtocolArg::JoinGame(Ticks::default());
    assert!(state.request(&join).is_some());
    let state = state.run(join, Some(OwnedMessage::Binary(None)));
    assert_eq!(state.phase(), Phase::InGame);
}

#[test]
fn game_loops_wrap_around() {
    let sm = ProtocolStateMachine {
        shared: SharedState { last_response: None, bot: Some(Ticks::default()), current_loop: u32::MAX },
    };
    assert_eq!(sm.gamestate_request().id, Some(u32::MAX));
    let (sm, ended) = play_to_completion(sm, Some(observation(Status::InGame, u32::MAX)));
    assert!(!ended);
    assert_eq!(sm.shared.current_loop, 0);
    assert_eq!(sm.shared.bot.as_ref().unwrap().0, vec![u32::MAX]);
    let (sm, ended) = play_to_completion(sm, Some(observation(Status::Ended, 0)));
    assert!(ended);
    assert_eq!(sm.shared.current_loop, 0);
    assert_eq!(sm.shared.last_response, None);
}
