//! The agent as a stream of requests: each response that comes in yields the
//! request that goes out next.

use vstd::prelude::*;
use crate::error::Error;
use crate::hook::{AgentHook, NextRequest, Producer};
use crate::protocol::request::Request as rRequest;
use crate::protocol::Response;
use crate::runtime::channel::Poll;
use crate::runtime::ingame::{is_ended, says_ended};

verus! {

/// An agent and its producer, borrowed for the time of a game.
pub struct StreamAgent<'engine, A: AgentHook> {
    agent: &'engine mut A,
    producer: &'engine mut A::Producer,
}

impl<'e, A: AgentHook> StreamAgent<'e, A> {
    /// The agent as it is now.
    pub closed spec fn agent(&self) -> A {
        *self.agent
    }

    /// The producer as it is now.
    pub closed spec fn producer(&self) -> A::Producer {
        *self.producer
    }

    /// Borrows an agent and its producer.
    pub fn new(agent: &'e mut A, producer: &'e mut A::Producer) -> (stream: Self)
        ensures
            stream.agent() == *old(agent),
            stream.producer() == *old(producer),
    {
        StreamAgent { agent, producer }
    }

    /// What the stream of requests yields for what the stream of responses
    /// yielded. While no response is there, no request is. The end of the
    /// responses ends the requests, and so does a response that says that
    /// the game has ended. A failed response is passed over. Every other
    /// response goes to the agent and yields the agent's request, or the
    /// producer's where the agent defers.
    pub fn poll_next(&mut self, polled: Poll<Option<Result<Response, Error>>>) -> (item: Poll<
        Option<rRequest>,
    >)
        ensures
            match polled {
                Poll::Ready(Some(Ok(response))) => if says_ended(response) {
                    &&& item == Poll::<Option<rRequest>>::Ready(None)
                    &&& final(self).agent() == old(self).agent()
                    &&& final(self).producer() == old(self).producer()
                } else {
                    exists|agent: &mut A, decision: NextRequest|
                        {
                            &&& *agent == old(self).agent()
                            &&& *final(agent) == final(self).agent()
                            &&& call_ensures(A::on_step_hook, (agent, response), decision)
                            &&& match decision {
                                NextRequest::Agent(req) => {
                                    &&& item == Poll::Ready(Some(req))
                                    &&& final(self).producer() == old(self).producer()
                                },
                                NextRequest::Observation => exists|
                                    producer: &mut A::Producer,
                                    req: rRequest,
                                |
                                    {
                                        &&& *producer == old(self).producer()
                                        &&& *final(producer) == final(self).producer()
                                        &&& call_ensures(
                                            <A::Producer as Producer>::next,
                                            (producer,),
                                            req,
                                        )
                                        &&& item == Poll::Ready(Some(req))
                                    },
                            }
                        }
                },
                other => {
                    &&& item == match other {
                        Poll::Ready(None) => Poll::<Option<rRequest>>::Ready(None),
                        _ => Poll::<Option<rRequest>>::Pending,
                    }
                    &&& final(self).agent() == old(self).agent()
                    &&& final(self).producer() == old(self).producer()
                },
            },
    {
        match polled {
            Poll::Ready(item) => match item {
                Some(item) => match item {
                    Ok(response) => {
                        if is_ended(&response) {
                            return Poll::Ready(None);
                        }
                        match self.agent.on_step_hook(response) {
                            NextRequest::Agent(request) => Poll::Ready(Some(request)),
                            NextRequest::Observation => Poll::Ready(Some(self.producer.next())),
                        }
                    },
                    Err(_) => Poll::Pending,
                },
                None => Poll::Ready(None),
            },
            Poll::Pending => Poll::Pending,
        }
    }
}

} // verus!
