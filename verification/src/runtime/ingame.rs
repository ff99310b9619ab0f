//! The game loop: what happens between the start of a game and its end.
//!
//! The loop itself belongs to the caller, who owns the timer and the socket.
//! On every tick the caller asks [`InGameRessource::tick`] whether another
//! round is due and, if so, has [`InGameRessource::step`] do the round's work
//! as soon as the response it waits for is there.

use vstd::prelude::*;
use crate::runtime::channel::{awaited, next_id, remaining, Channel, ChannelView, Poll};
use crate::error::Error;
use crate::hook::{AgentHook, NextRequest, Producer};
use crate::protocol::request::Request as rRequest;
use crate::protocol::{Request, Response, Status};

verus! {

/// What one round of the game loop did.
#[derive(Debug, Clone, PartialEq, Eq)]
pub enum Progress {
    /// The agent was asked and the request with this identifier was sent.
    Sent(u32),
    /// The game has ended: the loop is cancelled and nothing was sent.
    Ended,
    /// The stream failed or closed: the loop is cancelled with this error.
    Failed(Error),
}

/// What the game loop holds.
pub struct InGameView<A: AgentHook> {
    /// The connection's channel.
    pub channel: ChannelView,
    /// The agent.
    pub agent: A,
    /// The producer of the requests that are sent when the agent defers.
    pub prod: A::Producer,
    /// Whether the loop is cancelled.
    pub lock: bool,
    /// The failure that cancelled the loop, if one did.
    pub failure: Option<Error>,
}

/// Everything one game needs, owned by the game loop for as long as the game
/// lasts: the channel, the agent, and the producer of default requests.
pub struct InGameRessource<A: AgentHook> {
    channel: Channel,
    agent: A,
    prod: A::Producer,
    lock: bool,
    failure: Option<Error>,
}

impl<A: AgentHook> View for InGameRessource<A> {
    type V = InGameView<A>;

    closed spec fn view(&self) -> InGameView<A> {
        InGameView {
            channel: self.channel@,
            agent: self.agent,
            prod: self.prod,
            lock: self.lock,
            failure: self.failure,
        }
    }
}

/// Whether a response says that the game has ended.
pub open spec fn says_ended(response: Response) -> bool {
    response.status == Some(Status::Ended)
}

/// The channel once a request is queued on it under the next identifier.
pub open spec fn queued(before: ChannelView, request: rRequest) -> ChannelView {
    ChannelView {
        count: next_id(before.count),
        outbound: before.outbound.push(Request::enveloped(request, next_id(before.count))),
        ..before
    }
}

/// The failure that a loop keeps: the one it has, or the new one where it
/// has none.
pub open spec fn first_failure(kept: Option<Error>, new: Error) -> Option<Error> {
    if kept is Some {
        kept
    } else {
        Some(new)
    }
}

/// Whether `after` is `before` with one more request queued, which carries
/// the next identifier.
pub open spec fn one_more_sent(before: ChannelView, after: ChannelView) -> bool {
    &&& after.count == next_id(before.count)
    &&& after.outbound.len() == before.outbound.len() + 1
    &&& after.outbound.drop_last() == before.outbound
    &&& after.outbound.last().id == Some(after.count)
    &&& after.outbound.last().request is Some
    &&& after.inbound == before.inbound
    &&& after.closed == before.closed
}

impl<A: AgentHook> InGameRessource<A> {
    /// Takes over the channel and the agent for one game, builds the
    /// producer, asks the agent for its first request and sends it. Where the
    /// agent defers, the producer's next request is sent in its place.
    pub fn new(channel: Channel, agent: A) -> (ig: Self)
        ensures
            one_more_sent(channel@, ig@.channel),
            !ig@.lock,
            ig@.failure is None,
            exists|start: &mut A, decision: NextRequest, built: A::Producer|
                {
                    &&& *start == agent
                    &&& *final(start) == ig@.agent
                    &&& call_ensures(A::on_start_hook, (start,), decision)
                    &&& call_ensures(A::build_producer, (), built)
                    &&& match decision {
                        NextRequest::Agent(req) => {
                            &&& ig@.prod == built
                            &&& ig@.channel == queued(channel@, req)
                        },
                        NextRequest::Observation => exists|
                            producer: &mut A::Producer,
                            req: rRequest,
                        |
                            {
                                &&& *producer == built
                                &&& *final(producer) == ig@.prod
                                &&& call_ensures(
                                    <A::Producer as Producer>::next,
                                    (producer,),
                                    req,
                                )
                                &&& ig@.channel == queued(channel@, req)
                            },
                    }
                },
    {
        let mut ig = InGameRessource {
            channel,
            agent,
            prod: A::build_producer(),
            lock: false,
            failure: None,
        };
        let start_hook = ig.agent.on_start_hook();
        ig.request_loop(start_hook);
        ig
    }

    /// The agent that the loop holds.
    pub open spec fn agent(&self) -> A {
        self@.agent
    }

    /// The producer that the loop holds.
    pub open spec fn producer(&self) -> A::Producer {
        self@.prod
    }

    /// Whether another round of the loop is due: it is until the loop is
    /// cancelled.
    pub fn tick(&self) -> (due: bool)
        ensures
            due == !self@.lock,
    {
        !self.lock
    }

    /// Whether the loop is cancelled.
    pub fn is_cancelled(&self) -> (cancelled: bool)
        ensures
            cancelled == self@.lock,
    {
        self.lock
    }

    /// The identifier of the request sent last.
    pub fn count(&self) -> (count: u32)
        ensures
            count == self@.channel.count,
    {
        self.channel.count()
    }

    /// Hands the queued requests to the transport, oldest first.
    pub fn take_outbound(&mut self) -> (requests: Vec<Request>)
        ensures
            requests@ == old(self)@.channel.outbound,
            final(self)@ == (InGameView {
                channel: ChannelView { outbound: Seq::empty(), ..old(self)@.channel },
                ..old(self)@
            }),
    {
        self.channel.take_outbound()
    }

    /// Takes in what the transport received.
    pub fn deliver(&mut self, item: Result<Response, Error>)
        ensures
            final(self)@ == (InGameView {
                channel: ChannelView {
                    inbound: old(self)@.channel.inbound.push(item),
                    ..old(self)@.channel
                },
                ..old(self)@
            }),
    {
        self.channel.deliver(item);
    }

    /// Notes that the response stream has closed.
    pub fn close(&mut self)
        ensures
            final(self)@ == (InGameView {
                channel: ChannelView { closed: true, ..old(self)@.channel },
                ..old(self)@
            }),
    {
        self.channel.close();
    }

    /// Waits for the response to the request that was sent last. Responses
    /// with another identifier are dropped.
    pub fn response_loop(&mut self) -> (poll: Poll<Result<Response, Error>>)
        ensures
            poll == awaited(
                old(self)@.channel.inbound,
                old(self)@.channel.closed,
                Some(old(self)@.channel.count),
            ),
            final(self)@ == (InGameView {
                channel: ChannelView {
                    inbound: remaining(old(self)@.channel.inbound, Some(old(self)@.channel.count)),
                    ..old(self)@.channel
                },
                ..old(self)@
            }),
    {
        let id = self.channel.count();
        self.channel.await_matching(Some(id))
    }

    /// Decides what follows a response. A response that says the game has
    /// ended cancels the loop, and so does a failed or closed stream, which
    /// is also recorded as the loop's failure. Any other response goes to the
    /// agent, whose decision is returned.
    pub fn agent_loop(&mut self, response: Result<Response, Error>) -> (next: Result<
        Option<NextRequest>,
        Error,
    >)
        ensures
            match response {
                Ok(obs) => if says_ended(obs) {
                    &&& next == Ok::<Option<NextRequest>, Error>(None)
                    &&& final(self)@ == InGameView { lock: true, ..old(self)@ }
                } else {
                    &&& exists|agent: &mut A, decision: NextRequest|
                        {
                            &&& *agent == old(self)@.agent
                            &&& *final(agent) == final(self)@.agent
                            &&& call_ensures(A::on_step_hook, (agent, obs), decision)
                            &&& next == Ok::<Option<NextRequest>, Error>(Some(decision))
                        }
                    &&& final(self)@ == InGameView { agent: final(self)@.agent, ..old(self)@ }
                },
                Err(e) => {
                    &&& next == Err::<Option<NextRequest>, Error>(e)
                    &&& final(self)@ == InGameView {
                        lock: true,
                        failure: first_failure(old(self)@.failure, e),
                        ..old(self)@
                    }
                },
            },
    {
        match response {
            Ok(obs) => {
                if is_ended(&obs) {
                    self.lock = true;
                    return Ok(None);
                }
                let resp = self.agent.on_step_hook(obs);
                Ok(Some(resp))
            },
            Err(err) => {
                self.lock = true;
                let (kept, back) = keep_first(self.failure.take(), err);
                self.failure = kept;
                Err(back)
            },
        }
    }

    /// Sends the request that the agent decided on; where the agent defers,
    /// the producer's next request. Returns the identifier it was given.
    pub fn request_loop(&mut self, next: NextRequest) -> (id: u32)
        ensures
            id == next_id(old(self)@.channel.count),
            one_more_sent(old(self)@.channel, final(self)@.channel),
            match next {
                NextRequest::Agent(req) => final(self)@ == InGameView {
                    channel: queued(old(self)@.channel, req),
                    ..old(self)@
                },
                NextRequest::Observation => exists|producer: &mut A::Producer, req: rRequest|
                    {
                        &&& *producer == old(self)@.prod
                        &&& *final(producer) == final(self)@.prod
                        &&& call_ensures(<A::Producer as Producer>::next, (producer,), req)
                        &&& final(self)@ == InGameView {
                            channel: queued(old(self)@.channel, req),
                            prod: final(self)@.prod,
                            ..old(self)@
                        }
                    },
            },
    {
        let request = match next {
            NextRequest::Agent(req) => req,
            NextRequest::Observation => self.prod.next(),
        };
        let id = self.channel.send(request);
        proof {
            assert(self.channel@.outbound.drop_last() =~= old(self)@.channel.outbound);
            assert(self.channel@ == queued(old(self)@.channel, request));
        }
        id
    }

    /// The work of one round: wait for the response to the request that was
    /// sent last, and answer it. Until that response is there the round is
    /// pending. A response that says the game has ended cancels the loop, a
    /// failed or closed stream cancels it with an error, and after any other
    /// response the agent's next request is sent.
    pub fn step(&mut self) -> (poll: Poll<Progress>)
        ensures
            ({
                let before = old(self)@;
                let after = final(self)@;
                let waited = awaited(
                    before.channel.inbound,
                    before.channel.closed,
                    Some(before.channel.count),
                );
                let read = ChannelView {
                    inbound: remaining(before.channel.inbound, Some(before.channel.count)),
                    ..before.channel
                };
                match waited {
                    Poll::Pending => poll == Poll::<Progress>::Pending && after == (InGameView {
                        channel: read,
                        ..before
                    }),
                    Poll::Ready(Ok(obs)) => if says_ended(obs) {
                        &&& poll == Poll::Ready(Progress::Ended)
                        &&& after == InGameView { channel: read, lock: true, ..before }
                    } else {
                        &&& poll == Poll::Ready(Progress::Sent(next_id(before.channel.count)))
                        &&& one_more_sent(read, after.channel)
                        &&& after.lock == before.lock
                        &&& after.failure == before.failure
                        &&& exists|agent: &mut A, decision: NextRequest|
                            {
                                &&& *agent == before.agent
                                &&& *final(agent) == after.agent
                                &&& call_ensures(A::on_step_hook, (agent, obs), decision)
                                &&& match decision {
                                    NextRequest::Agent(req) => {
                                        &&& after.prod == before.prod
                                        &&& after.channel == queued(read, req)
                                    },
                                    NextRequest::Observation => exists|
                                        producer: &mut A::Producer,
                                        req: rRequest,
                                    |
                                        {
                                            &&& *producer == before.prod
                                            &&& *final(producer) == after.prod
                                            &&& call_ensures(
                                                <A::Producer as Producer>::next,
                                                (producer,),
                                                req,
                                            )
                                            &&& after.channel == queued(read, req)
                                        },
                                }
                            }
                    },
                    Poll::Ready(Err(e)) => {
                        &&& poll == Poll::Ready(Progress::Failed(e))
                        &&& after == InGameView {
                            channel: read,
                            lock: true,
                            failure: first_failure(before.failure, e),
                            ..before
                        }
                    },
                }
            }),
    {
        let response = match self.response_loop() {
            Poll::Pending => {
                return Poll::Pending;
            },
            Poll::Ready(response) => response,
        };
        match self.agent_loop(response) {
            Ok(Some(next)) => {
                let id = self.request_loop(next);
                Poll::Ready(Progress::Sent(id))
            },
            Ok(None) => Poll::Ready(Progress::Ended),
            Err(e) => Poll::Ready(Progress::Failed(e)),
        }
    }

    /// Cancels the loop with a failure that the caller met: a request that
    /// could not be sent, or a failure of the agent's own code. The first
    /// failure is the one that is kept.
    pub fn abort(&mut self, error: Error)
        ensures
            final(self)@ == (InGameView {
                lock: true,
                failure: first_failure(old(self)@.failure, error),
                ..old(self)@
            }),
    {
        self.lock = true;
        let (kept, _) = keep_first(self.failure.take(), error);
        self.failure = kept;
    }

    /// Ends the loop's hold on its resources: hands back the channel and the
    /// agent, and the failure that cancelled the loop, if one did.
    pub fn into_parts(self) -> (parts: (Channel, A, Option<Error>))
        ensures
            parts.0@ == self@.channel,
            parts.1 == self.agent(),
            parts.2 == self@.failure,
    {
        (self.channel, self.agent, self.failure)
    }
}

/// Whether a response says that the game has ended.
pub fn is_ended(response: &Response) -> (ended: bool)
    ensures
        ended == says_ended(*response),
{
    match response.status {
        Some(Status::Ended) => true,
        _ => false,
    }
}

/// Keeps the first of two failures: the one already recorded, or the new one
/// where none was. The new one is handed back as well.
fn keep_first(recorded: Option<Error>, new: Error) -> (r: (Option<Error>, Error))
    ensures
        r.0 == first_failure(recorded, new),
        r.1 == new,
{
    match recorded {
        Some(first) => (Some(first), new),
        None => {
            let copy = new.duplicate();
            (Some(copy), new)
        },
    }
}

} // verus!
