//! The body of a request.

use vstd::prelude::*;
use vstd::std_specs::convert::FromSpecImpl;
use crate::protocol::{
    RequestAction, RequestCreateGame, RequestGameInfo, RequestJoinGame, RequestLeaveGame,
    RequestObservation, RequestPing, RequestQuit, RequestRestartGame, RequestStartReplay,
};

verus! {

/// What a request asks for.
#[derive(Debug, Clone, PartialEq, Eq)]
pub enum Request {
    CreateGame(RequestCreateGame),
    JoinGame(RequestJoinGame),
    RestartGame(RequestRestartGame),
    StartReplay(RequestStartReplay),
    LeaveGame(RequestLeaveGame),
    Quit(RequestQuit),
    GameInfo(RequestGameInfo),
    Observation(RequestObservation),
    Action(RequestAction),
    Ping(RequestPing),
    /// Any other request, as its field number and encoded body.
    Other { tag: u32, encoded: Vec<u8> },
}

impl From<RequestCreateGame> for Request {
    /// The body of a request to create a game.
    fn from(inner: RequestCreateGame) -> (body: Request) {
        Request::CreateGame(inner)
    }
}

impl FromSpecImpl<RequestCreateGame> for Request {
    open spec fn obeys_from_spec() -> bool {
        true
    }

    open spec fn from_spec(inner: RequestCreateGame) -> Request {
        Request::CreateGame(inner)
    }
}

impl From<RequestJoinGame> for Request {
    /// The body of a request to join a game.
    fn from(inner: RequestJoinGame) -> (body: Request) {
        Request::JoinGame(inner)
    }
}

impl FromSpecImpl<RequestJoinGame> for Request {
    open spec fn obeys_from_spec() -> bool {
        true
    }

    open spec fn from_spec(inner: RequestJoinGame) -> Request {
        Request::JoinGame(inner)
    }
}

impl From<RequestRestartGame> for Request {
    /// The body of a request to restart the game.
    fn from(inner: RequestRestartGame) -> (body: Request) {
        Request::RestartGame(inner)
    }
}

impl FromSpecImpl<RequestRestartGame> for Request {
    open spec fn obeys_from_spec() -> bool {
        true
    }

    open spec fn from_spec(inner: RequestRestartGame) -> Request {
        Request::RestartGame(inner)
    }
}

impl From<RequestStartReplay> for Request {
    /// The body of a request to start a replay.
    fn from(inner: RequestStartReplay) -> (body: Request) {
        Request::StartReplay(inner)
    }
}

impl FromSpecImpl<RequestStartReplay> for Request {
    open spec fn obeys_from_spec() -> bool {
        true
    }

    open spec fn from_spec(inner: RequestStartReplay) -> Request {
        Request::StartReplay(inner)
    }
}

impl From<RequestLeaveGame> for Request {
    /// The body of a request to leave the game.
    fn from(inner: RequestLeaveGame) -> (body: Request) {
        Request::LeaveGame(inner)
    }
}

impl FromSpecImpl<RequestLeaveGame> for Request {
    open spec fn obeys_from_spec() -> bool {
        true
    }

    open spec fn from_spec(inner: RequestLeaveGame) -> Request {
        Request::LeaveGame(inner)
    }
}

impl From<RequestQuit> for Request {
    /// The body of a request to quit.
    fn from(inner: RequestQuit) -> (body: Request) {
        Request::Quit(inner)
    }
}

impl FromSpecImpl<RequestQuit> for Request {
    open spec fn obeys_from_spec() -> bool {
        true
    }

    open spec fn from_spec(inner: RequestQuit) -> Request {
        Request::Quit(inner)
    }
}

impl From<RequestGameInfo> for Request {
    /// The body of a request for the game's description.
    fn from(inner: RequestGameInfo) -> (body: Request) {
        Request::GameInfo(inner)
    }
}

impl FromSpecImpl<RequestGameInfo> for Request {
    open spec fn obeys_from_spec() -> bool {
        true
    }

    open spec fn from_spec(inner: RequestGameInfo) -> Request {
        Request::GameInfo(inner)
    }
}

impl From<RequestObservation> for Request {
    /// The body of a request for an observation.
    fn from(inner: RequestObservation) -> (body: Request) {
        Request::Observation(inner)
    }
}

impl FromSpecImpl<RequestObservation> for Request {
    open spec fn obeys_from_spec() -> bool {
        true
    }

    open spec fn from_spec(inner: RequestObservation) -> Request {
        Request::Observation(inner)
    }
}

impl From<RequestAction> for Request {
    /// The body of a request to act.
    fn from(inner: RequestAction) -> (body: Request) {
        Request::Action(inner)
    }
}

impl FromSpecImpl<RequestAction> for Request {
    open spec fn obeys_from_spec() -> bool {
        true
    }

    open spec fn from_spec(inner: RequestAction) -> Request {
        Request::Action(inner)
    }
}

impl From<RequestPing> for Request {
    /// The body of a ping.
    fn from(inner: RequestPing) -> (body: Request) {
        Request::Ping(inner)
    }
}

impl FromSpecImpl<RequestPing> for Request {
    open spec fn obeys_from_spec() -> bool {
        true
    }

    open spec fn from_spec(inner: RequestPing) -> Request {
        Request::Ping(inner)
    }
}

} // verus!
