//! Hooks called by the coordinator while a game is played.

use vstd::prelude::*;
use crate::protocol::request::Request as rRequest;
use crate::protocol::Response;

verus! {

/// Next request for a game loop.
#[derive(Debug, Clone)]
pub enum NextRequest {
    /// The agent supplies the next request.
    Agent(rRequest),
    /// The producer supplies the next request.
    Observation,
}

impl NextRequest {
    /// What an optional request of the agent stands for: the request itself,
    /// or a deferral to the producer where there is none.
    pub fn from(other: Option<rRequest>) -> (next: Self)
        ensures
            next == match other {
                Some(req) => NextRequest::Agent(req),
                None => NextRequest::Observation,
            },
    {
        match other {
            Some(req) => NextRequest::Agent(req),
            None => NextRequest::Observation,
        }
    }
}

/// An endless source of default requests, used whenever the agent defers.
pub trait Producer {
    /// The next default request.
    fn next(&mut self) -> rRequest;
}

/// Base trait for hooking an agent to a coordinator that is in a game.
pub trait AgentHook {
    /// Source of the requests sent whenever the agent defers.
    type Producer: Producer;

    /// First function called by the coordinator, once per game.
    fn on_start_hook(&mut self) -> NextRequest;

    /// Called on every response of the game loop.
    fn on_step_hook(&mut self, response: Response) -> NextRequest;

    /// Called once after the end of a game; resets the agent's inner state.
    fn on_close_hook(&mut self);

    /// Builds a producer before the start of the game.
    fn build_producer() -> Self::Producer;
}

} // verus!
