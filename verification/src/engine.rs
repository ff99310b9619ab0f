//! The synchronous engine: one request, one reply, one step.
//!
//! The engine does no I/O. For each step the caller asks
//! [`ProtocolState::request`] what to send, sends it, waits for the reply and
//! hands the reply to [`ProtocolState::run`].

use vstd::prelude::*;
use crate::bot::{Bot, BotConfig};
use crate::default::DefaultConfig;
use crate::protocol::request::Request as rRequest;
use crate::protocol::response::Response as rResponse;
use crate::protocol::{
    Observation, Request, RequestCreateGame, RequestJoinGame, RequestObservation, Response,
    ResponseObservation, Status,
};
use crate::runtime::channel::next_id;

verus! {

/// How fast the game advances.
#[derive(Debug, Clone, Copy, PartialEq, Eq, Structural)]
pub enum GameSpeed {
    RealTime,
    Faster,
    Step,
}

/// What a received frame holds.
#[derive(Debug, Clone, PartialEq, Eq)]
pub enum OwnedMessage {
    /// A binary frame: the response it decodes to, or nothing where its bytes
    /// are no response.
    Binary(Option<Response>),
    /// Any other frame.
    Other,
}

/// The step that the engine is asked to take.
pub enum ProtocolArg<B> {
    CreateGame,
    StartReplay,
    JoinGame(B),
    PlayGame,
    RestartGame,
    LeaveGame,
}

/// What the engine keeps across its states.
pub struct SharedState<B> {
    /// The reply to the last request, until it is looked at.
    pub last_response: Option<OwnedMessage>,
    /// The bot that plays, once a game is joined.
    pub bot: Option<B>,
    /// The game loop that is observed next.
    pub current_loop: u32,
}

/// The engine in one of its states.
pub struct ProtocolStateMachine<B> {
    pub shared: SharedState<B>,
}

/// The states of the engine.
pub enum ProtocolState<B> {
    Launched(Option<ProtocolStateMachine<B>>),
    InitGame(ProtocolStateMachine<B>),
    InGame(ProtocolStateMachine<B>),
    InReplay(ProtocolStateMachine<B>),
    Ended(ProtocolStateMachine<B>),
    CloseGame,
}

/// The states of the engine without what they hold.
#[derive(Debug, Clone, Copy, PartialEq, Eq, Structural)]
pub enum Phase {
    Closed,
    Launched,
    InitGame,
    InGame,
    InReplay,
    Ended,
    CloseGame,
}

/// The steps of the engine without what they bring.
#[derive(Debug, Clone, Copy, PartialEq, Eq, Structural)]
pub enum ArgKind {
    CreateGame,
    StartReplay,
    JoinGame,
    PlayGame,
    RestartGame,
    LeaveGame,
}

/// What a reply means to a game that is played: an observation to hand to
/// the bot, nothing, or the end of the game.
pub open spec fn handled(resp: OwnedMessage) -> Result<Option<Observation>, Status> {
    match resp {
        OwnedMessage::Binary(Some(response)) => if response.status is Some && response.response
            is Some {
            if response.status == Some(Status::Ended) {
                Err(Status::Ended)
            } else {
                match response.response {
                    Some(rResponse::Observation(observed)) => Ok(observed.observation),
                    _ => Ok(None),
                }
            }
        } else {
            Ok(None)
        },
        _ => Ok(None),
    }
}

/// Reads a reply during a game. A response with the status `Ended` ends the
/// game. A response with another status that holds an observation yields the
/// observation. Everything else yields nothing: a frame that is not binary,
/// bytes that are no response, and a response without status or body.
pub fn handle_response(resp: OwnedMessage) -> (r: Result<Option<Observation>, Status>)
    ensures
        r == handled(resp),
{
    match resp {
        OwnedMessage::Binary(Some(response)) => {
            let Response { status, response, .. } = response;
            match (status, response) {
                (Some(status), Some(response)) => {
                    if status == Status::Ended {
                        return Err(Status::Ended);
                    }
                    if let rResponse::Observation(ResponseObservation { observation }) = response {
                        return Ok(observation);
                    }
                },
                _ => {},
            }
        },
        _ => {},
    }
    Ok(None)
}

/// The observation that a reply holds for the bot, if it holds one.
pub open spec fn observed(reply: Option<OwnedMessage>) -> Option<Observation> {
    match reply {
        Some(message) => match handled(message) {
            Ok(Some(observation)) => Some(observation),
            _ => None,
        },
        None => None,
    }
}

/// Whether a reply ends the game that is played.
pub open spec fn ends_game(reply: Option<OwnedMessage>) -> bool {
    reply matches Some(message) && handled(message) is Err
}

impl<B: Bot> ProtocolStateMachine<B> {
    /// The request for the observation of the game loop that is due.
    pub fn gamestate_request(&self) -> (request: Request)
        ensures
            request == Request::enveloped(
                rRequest::Observation(
                    RequestObservation {
                        disable_fog: Some(true),
                        game_loop: Some(self.shared.current_loop),
                    },
                ),
                self.shared.current_loop,
            ),
    {
        Request::with_id(RequestObservation::nofog(self.shared.current_loop), self.shared.current_loop)
    }
}

/// One round of a game: takes the reply to the request for the game loop
/// that was due, hands its observation to the bot if it holds one, together
/// with the number of the game loop, and moves on to the next game loop. The round that sees the end of the game does not
/// move on; it says so by returning `true`.
pub fn play_to_completion<B: Bot>(
    sm: ProtocolStateMachine<B>,
    reply: Option<OwnedMessage>,
) -> (r: (ProtocolStateMachine<B>, bool))
    ensures
        r.1 == ends_game(reply),
        r.0.shared.last_response is None,
        match (observed(reply), sm.shared.bot) {
            (Some(observation), Some(bot)) => exists|asked: &mut B, answer: Option<Request>|
                {
                    &&& *asked == bot
                    &&& r.0.shared.bot == Some(*final(asked))
                    &&& call_ensures(
                        B::on_step,
                        (asked, observation, sm.shared.current_loop),
                        answer,
                    )
                },
            _ => r.0.shared.bot == sm.shared.bot,
        },
        r.0.shared.current_loop == if ends_game(reply) {
            sm.shared.current_loop
        } else {
            next_id(sm.shared.current_loop)
        },
{
    let mut sm = sm;
    let current_loop = sm.shared.current_loop;
    sm.shared.last_response = reply;
    match sm.shared.last_response.take() {
        Some(ret_message) => match handle_response(ret_message) {
            Ok(Some(observation)) => {
                match sm.shared.bot.take() {
                    Some(mut bot) => {
                        let _req = bot.on_step(observation, current_loop);
                        sm.shared.bot = Some(bot);
                    },
                    None => {},
                }
            },
            Err(_) => {
                return (sm, true);
            },
            Ok(None) => {},
        },
        None => {},
    }
    sm.shared.current_loop = current_loop.wrapping_add(1);
    (sm, false)
}

impl<B> ProtocolArg<B> {
    /// The step without what it brings.
    pub open spec fn spec_kind(&self) -> ArgKind {
        match self {
            ProtocolArg::CreateGame => ArgKind::CreateGame,
            ProtocolArg::StartReplay => ArgKind::StartReplay,
            ProtocolArg::JoinGame(_) => ArgKind::JoinGame,
            ProtocolArg::PlayGame => ArgKind::PlayGame,
            ProtocolArg::RestartGame => ArgKind::RestartGame,
            ProtocolArg::LeaveGame => ArgKind::LeaveGame,
        }
    }

    /// The step without what it brings.
    #[verifier::when_used_as_spec(spec_kind)]
    pub fn kind(&self) -> (kind: ArgKind)
        ensures
            kind == self.spec_kind(),
    {
        match self {
            ProtocolArg::CreateGame => ArgKind::CreateGame,
            ProtocolArg::StartReplay => ArgKind::StartReplay,
            ProtocolArg::JoinGame(_) => ArgKind::JoinGame,
            ProtocolArg::PlayGame => ArgKind::PlayGame,
            ProtocolArg::RestartGame => ArgKind::RestartGame,
            ProtocolArg::LeaveGame => ArgKind::LeaveGame,
        }
    }
}

/// The table of steps of the engine: the state that follows `from` when the
/// step `arg` is taken and answered by `reply`. A closed connection closes
/// the game whatever is asked. A step that the state does not offer leaves
/// the state as it is.
pub open spec fn follows(from: Phase, arg: ArgKind, reply: Option<OwnedMessage>) -> Phase {
    match (from, arg) {
        (Phase::Closed, _) => Phase::CloseGame,
        (Phase::Launched, ArgKind::CreateGame) => Phase::InitGame,
        (Phase::Launched, ArgKind::StartReplay) => Phase::InReplay,
        (Phase::Launched, ArgKind::JoinGame) => Phase::InGame,
        (Phase::InitGame, ArgKind::JoinGame) => Phase::InGame,
        (Phase::Ended, ArgKind::RestartGame) => Phase::InGame,
        (Phase::InGame, ArgKind::PlayGame) => if ends_game(reply) {
            Phase::Ended
        } else {
            Phase::InGame
        },
        (Phase::Ended, ArgKind::LeaveGame) => Phase::Closed,
        (same, _) => same,
    }
}

/// Whether a step sends a request and waits for its reply.
pub open spec fn asks(from: Phase, arg: ArgKind) -> bool {
    match (from, arg) {
        (Phase::Launched, ArgKind::CreateGame) => true,
        (Phase::Launched, ArgKind::JoinGame) => true,
        (Phase::InitGame, ArgKind::JoinGame) => true,
        (Phase::InGame, ArgKind::PlayGame) => true,
        _ => false,
    }
}

impl<B: Bot> ProtocolState<B> {
    /// The state without what it holds.
    pub open spec fn spec_phase(&self) -> Phase {
        match self {
            ProtocolState::Launched(None) => Phase::Closed,
            ProtocolState::Launched(Some(_)) => Phase::Launched,
            ProtocolState::InitGame(_) => Phase::InitGame,
            ProtocolState::InGame(_) => Phase::InGame,
            ProtocolState::InReplay(_) => Phase::InReplay,
            ProtocolState::Ended(_) => Phase::Ended,
            ProtocolState::CloseGame => Phase::CloseGame,
        }
    }

    /// What the engine keeps, where the state holds an engine.
    pub open spec fn spec_shared(&self) -> Option<SharedState<B>> {
        match self {
            ProtocolState::Launched(Some(sm)) => Some(sm.shared),
            ProtocolState::InitGame(sm) => Some(sm.shared),
            ProtocolState::InGame(sm) => Some(sm.shared),
            ProtocolState::InReplay(sm) => Some(sm.shared),
            ProtocolState::Ended(sm) => Some(sm.shared),
            _ => None,
        }
    }

    /// The game loop that is observed next; zero where the state holds no
    /// engine.
    pub open spec fn spec_current_loop(&self) -> u32 {
        match self {
            ProtocolState::Launched(Some(sm)) => sm.shared.current_loop,
            ProtocolState::InitGame(sm) => sm.shared.current_loop,
            ProtocolState::InGame(sm) => sm.shared.current_loop,
            ProtocolState::InReplay(sm) => sm.shared.current_loop,
            ProtocolState::Ended(sm) => sm.shared.current_loop,
            _ => 0,
        }
    }

    /// The state without what it holds.
    #[verifier::when_used_as_spec(spec_phase)]
    pub fn phase(&self) -> (phase: Phase)
        ensures
            phase == self.spec_phase(),
    {
        match self {
            ProtocolState::Launched(None) => Phase::Closed,
            ProtocolState::Launched(Some(_)) => Phase::Launched,
            ProtocolState::InitGame(_) => Phase::InitGame,
            ProtocolState::InGame(_) => Phase::InGame,
            ProtocolState::InReplay(_) => Phase::InReplay,
            ProtocolState::Ended(_) => Phase::Ended,
            ProtocolState::CloseGame => Phase::CloseGame,
        }
    }

    /// The engine of a connection that was just made.
    pub fn connected() -> (state: Self)
        ensures
            state == ProtocolState::<B>::Launched(
                Some(
                    ProtocolStateMachine {
                        shared: SharedState { last_response: None, bot: None, current_loop: 0 },
                    },
                ),
            ),
    {
        ProtocolState::Launched(
            Some(
                ProtocolStateMachine {
                    shared: SharedState { last_response: None, bot: None, current_loop: 0 },
                },
            ),
        )
    }

    /// The request that a step sends before it is taken, if it sends one: the
    /// default request to create a game under identifier 0, the request to
    /// join as the bot's race under identifier 1, and during a game the
    /// request for the observation of the game loop that is due.
    pub fn request(&self, arg: &ProtocolArg<B>) -> (request: Option<Request>)
        ensures
            request is Some == asks(self.spec_phase(), arg.spec_kind()),
            match (self.spec_phase(), arg) {
                (Phase::Launched, ProtocolArg::CreateGame) => {
                    &&& request matches Some(Request {
                        id: Some(id),
                        request: Some(rRequest::CreateGame(body)),
                    })
                    &&& id == 0
                    &&& body.is_default_config()
                },
                (Phase::Launched, ProtocolArg::JoinGame(bot)) | (
                    Phase::InitGame,
                    ProtocolArg::JoinGame(bot),
                ) => {
                    &&& request matches Some(Request {
                        id: Some(id),
                        request: Some(rRequest::JoinGame(body)),
                    })
                    &&& id == 1
                    &&& exists|config: BotConfig|
                        call_ensures(B::bot_config, (bot,), config) && body.joins_with_race(
                            config.race,
                        )
                },
                (Phase::InGame, ProtocolArg::PlayGame) => request == Some(
                    Request::enveloped(
                        rRequest::Observation(
                            RequestObservation {
                                disable_fog: Some(true),
                                game_loop: Some(self.spec_current_loop()),
                            },
                        ),
                        self.spec_current_loop(),
                    ),
                ),
                _ => true,
            },
    {
        match (self, arg) {
            (ProtocolState::Launched(Some(_)), ProtocolArg::CreateGame) => Some(
                Request::with_id(RequestCreateGame::default_config(), 0),
            ),
            (ProtocolState::Launched(Some(_)), ProtocolArg::JoinGame(bot)) => Some(
                Request::with_id(RequestJoinGame::with_race(bot.bot_config().race), 1),
            ),
            (ProtocolState::InitGame(_), ProtocolArg::JoinGame(bot)) => Some(
                Request::with_id(RequestJoinGame::with_race(bot.bot_config().race), 1),
            ),
            (ProtocolState::InGame(sm), ProtocolArg::PlayGame) => Some(sm.gamestate_request()),
            _ => None,
        }
    }

    /// Takes a step, with the reply to the request that the step sent. The
    /// state that follows is the one that the table of steps gives. The
    /// reply to a request to create or to join a game is kept as the last
    /// response; a bot that joins stays with the engine; and every round of
    /// a game but its last moves on to the next game loop.
    pub fn run(self, arg: ProtocolArg<B>, reply: Option<OwnedMessage>) -> (next: Self)
        ensures
            next.spec_phase() == follows(self.spec_phase(), arg.spec_kind(), reply),
            match (self, arg) {
                (ProtocolState::Launched(Some(sm)), ProtocolArg::CreateGame) => {
                    &&& next matches ProtocolState::InitGame(after)
                    &&& after.shared == SharedState { last_response: reply, ..sm.shared }
                },
                (ProtocolState::Launched(Some(sm)), ProtocolArg::JoinGame(bot)) | (
                    ProtocolState::InitGame(sm),
                    ProtocolArg::JoinGame(bot),
                ) => {
                    &&& next matches ProtocolState::InGame(after)
                    &&& after.shared == SharedState {
                        last_response: reply,
                        bot: Some(bot),
                        ..sm.shared
                    }
                },
                (ProtocolState::Launched(Some(sm)), ProtocolArg::StartReplay) => next
                    == ProtocolState::InReplay(sm),
                (ProtocolState::Ended(sm), ProtocolArg::RestartGame) => next
                    == ProtocolState::InGame(sm),
                (ProtocolState::InGame(sm), ProtocolArg::PlayGame) => {
                    &&& next.spec_current_loop() == if ends_game(reply) {
                        sm.shared.current_loop
                    } else {
                        next_id(sm.shared.current_loop)
                    }
                    &&& next.spec_shared() matches Some(after)
                    &&& after.last_response is None
                    &&& match (observed(reply), sm.shared.bot) {
                        (Some(observation), Some(bot)) => exists|
                            asked: &mut B,
                            answer: Option<Request>,
                        |
                            {
                                &&& *asked == bot
                                &&& after.bot == Some(*final(asked))
                                &&& call_ensures(
                                    B::on_step,
                                    (asked, observation, sm.shared.current_loop),
                                    answer,
                                )
                            },
                        _ => after.bot == sm.shared.bot,
                    }
                },
                (ProtocolState::Launched(None), _) => next == ProtocolState::<B>::CloseGame,
                (ProtocolState::Ended(_), ProtocolArg::LeaveGame) => next
                    == ProtocolState::<B>::Launched(None),
                _ => next == self,
            },
    {
        match (self, arg) {
            (ProtocolState::Launched(None), _) => ProtocolState::CloseGame,
            (ProtocolState::Launched(Some(mut sm)), ProtocolArg::CreateGame) => {
                sm.shared.last_response = reply;
                ProtocolState::InitGame(sm)
            },
            (ProtocolState::Launched(Some(sm)), ProtocolArg::StartReplay) => ProtocolState::InReplay(
                sm,
            ),
            (ProtocolState::Launched(Some(mut sm)), ProtocolArg::JoinGame(bot)) => {
                sm.shared.last_response = reply;
                sm.shared.bot = Some(bot);
                ProtocolState::InGame(sm)
            },
            (ProtocolState::InitGame(mut sm), ProtocolArg::JoinGame(bot)) => {
                sm.shared.last_response = reply;
                sm.shared.bot = Some(bot);
                ProtocolState::InGame(sm)
            },
            (ProtocolState::Ended(sm), ProtocolArg::RestartGame) => ProtocolState::InGame(sm),
            (ProtocolState::InGame(sm), ProtocolArg::PlayGame) => {
                let (sm, ended) = play_to_completion(sm, reply);
                if ended {
                    ProtocolState::Ended(sm)
                } else {
                    ProtocolState::InGame(sm)
                }
            },
            (ProtocolState::Ended(_), ProtocolArg::LeaveGame) => ProtocolState::Launched(None),
            (x, _) => x,
        }
    }
}

} // verus!
