//! Agents that answer observations with actions.

use vstd::prelude::*;
use crate::api::raw::{RawProducer, RawProducerView};
use crate::hook::{AgentHook, NextRequest};
use crate::protocol::request::Request as rRequest;
use crate::protocol::response::Response as rResponse;
use crate::protocol::{
    RequestAction, RequestObservation, Response, ResponseGameInfo, ResponseObservation,
};

verus! {

/// Decision logic that sees the description of the game and its
/// observations, and may answer each with actions.
pub trait Agent {
    /// Called with the description of the game. Does nothing unless the
    /// agent says otherwise.
    fn on_start(&mut self, _info: &ResponseGameInfo) -> Option<RequestAction> {
        None
    }

    /// Called with every observation.
    fn on_step(&mut self, info: &ResponseObservation) -> Option<RequestAction>;

    /// Called after the end of the game. Does nothing unless the agent says
    /// otherwise.
    fn on_end(&mut self) {
    }
}

/// What the actions of an agent stand for in the game loop: a request to
/// perform them, or a deferral to the producer where there are none.
pub open spec fn acted(actions: Option<RequestAction>) -> NextRequest {
    match actions {
        Some(request) => NextRequest::Agent(rRequest::Action(request)),
        None => NextRequest::Observation,
    }
}

/// What the actions of an agent stand for in the game loop: a request to
/// perform them, or a deferral to the producer where there are none.
pub fn next_action(actions: Option<RequestAction>) -> (next: NextRequest)
    ensures
        next == acted(actions),
{
    match actions {
        Some(request) => NextRequest::from(Some(rRequest::Action(request))),
        None => NextRequest::from(None),
    }
}

/// Agent wrapper that passes [`Agent`] calls to [`AgentHook`].
pub struct NewAgent<A: Agent>(pub A);

impl<A: Agent> AgentHook for NewAgent<A> {
    type Producer = RawProducer;

    /// Defers to the producer.
    fn on_start_hook(&mut self) -> (next: NextRequest)
        ensures
            next == NextRequest::Observation,
    {
        NextRequest::Observation
    }

    /// Hands an observation to `on_step` and the description of the game to
    /// `on_start`, and returns what the agent's actions stand for: a request
    /// to perform them, or a deferral where there are none. On every other
    /// response the agent is left alone and the hook defers to the producer.
    fn on_step_hook(&mut self, response: Response) -> (next: NextRequest)
        ensures
            match response.response {
                Some(rResponse::Observation(robs)) => exists|
                    agent: &mut A,
                    actions: Option<RequestAction>,
                |
                    {
                        &&& *agent == old(self).0
                        &&& *final(agent) == final(self).0
                        &&& call_ensures(A::on_step, (agent, &robs), actions)
                        &&& next == acted(actions)
                    },
                Some(rResponse::GameInfo(info)) => exists|
                    agent: &mut A,
                    actions: Option<RequestAction>,
                |
                    {
                        &&& *agent == old(self).0
                        &&& *final(agent) == final(self).0
                        &&& call_ensures(A::on_start, (agent, &info), actions)
                        &&& next == acted(actions)
                    },
                _ => next == NextRequest::Observation && final(self).0 == old(self).0,
            },
    {
        match &response.response {
            Some(rResponse::Observation(robs)) => next_action(self.0.on_step(robs)),
            Some(rResponse::GameInfo(info)) => next_action(self.0.on_start(info)),
            _ => NextRequest::Observation,
        }
    }

    /// Tells the agent that the game is over.
    fn on_close_hook(&mut self)
        ensures
            exists|agent: &mut A|
                {
                    &&& *agent == old(self).0
                    &&& *final(agent) == final(self).0
                    &&& call_ensures(A::on_end, (agent,), ())
                },
    {
        self.0.on_end()
    }

    /// A producer of observations without fog of war, from game loop zero on.
    fn build_producer() -> (producer: RawProducer)
        ensures
            producer@ == (RawProducerView {
                count: 0,
                request: RequestObservation { disable_fog: Some(true), game_loop: Some(0) },
            }),
    {
        RawProducer::new(RequestObservation::nofog(0))
    }
}

} // verus!
