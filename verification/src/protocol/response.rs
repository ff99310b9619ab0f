//! The body of a response.

use vstd::prelude::*;
use crate::protocol::{ResponseGameInfo, ResponseObservation, ResponseOutcome};

verus! {

/// What a response answers.
#[derive(Debug, Clone, PartialEq, Eq)]
pub enum Response {
    CreateGame(ResponseOutcome),
    JoinGame(ResponseOutcome),
    RestartGame(ResponseOutcome),
    StartReplay(ResponseOutcome),
    LeaveGame,
    Quit,
    GameInfo(ResponseGameInfo),
    Observation(ResponseObservation),
    Action,
    Ping,
    /// Any other response, as its field number and encoded body.
    Other { tag: u32, encoded: Vec<u8> },
}

} // verus!
