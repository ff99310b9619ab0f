//! Raw agent api.
//!
//! The raw agent api gives mid-level access to the game loop: the agent
//! receives the responses as they come, but it has no access to the producer
//! nor to the start and close hooks. Instead the proxy methods
//! [`RawAgent::on_start`] and [`RawAgent::on_end`] are called.
//!
//! The first request sent for a [`NewRawAgent`] asks for the description of
//! the game.

use vstd::prelude::*;
use vstd::std_specs::iter::IteratorSpec;
use crate::hook::{AgentHook, NextRequest, Producer};
use crate::protocol::request::Request as rRequest;
use crate::protocol::response::Response as rResponse;
use crate::protocol::{
    RequestCreateGame, RequestGameInfo, RequestJoinGame, RequestObservation, Response,
};
use crate::runtime::channel::next_id;
use crate::runtime::commands::{Commands, Endpoint};

verus! {

/// The commands that play exactly one game with the requests fed.
pub struct RawRequestGame<A: AgentHook> {
    messages: Vec<Commands<A>>,
}

/// The address at which a game instance listens by default.
pub open spec fn local_instance() -> Endpoint {
    Endpoint { ip: (127, 0, 0, 1), port: 5000 }
}

/// The commands of one game: connect to the local instance, create the game,
/// join it with the agent, leave it and quit.
pub open spec fn one_game<A: AgentHook>(
    agent: A,
    create: RequestCreateGame,
    join: RequestJoinGame,
) -> Seq<Commands<A>> {
    seq![
        Commands::Launched { socket: local_instance() },
        Commands::CreateGame { request: create },
        Commands::JoinGame { agent, request: join },
        Commands::LeaveGame,
        Commands::QuitGame,
    ]
}

impl<A: AgentHook> RawRequestGame<A> {
    /// The commands, first one first.
    pub closed spec fn messages(&self) -> Seq<Commands<A>> {
        self.messages@
    }

    /// Builds the commands of one game from an agent and the requests to
    /// create and to join the game.
    pub fn new(agent: A, create: RequestCreateGame, join: RequestJoinGame) -> (game: Self)
        ensures
            game.messages() == one_game(agent, create, join),
    {
        let mut messages: Vec<Commands<A>> = Vec::with_capacity(5);
        messages.push(Commands::Launched { socket: Endpoint { ip: (127, 0, 0, 1), port: 5000 } });
        messages.push(Commands::CreateGame { request: create });
        messages.push(Commands::JoinGame { request: join, agent });
        messages.push(Commands::LeaveGame);
        messages.push(Commands::QuitGame);
        proof {
            assert(messages@ =~= one_game(agent, create, join));
        }
        RawRequestGame { messages }
    }

    /// The commands, first one first.
    pub fn into_commands(self) -> (commands: Vec<Commands<A>>)
        ensures
            commands@ == self.messages(),
    {
        self.messages
    }
}

impl<A: AgentHook> IntoIterator for RawRequestGame<A> {
    type Item = Commands<A>;

    type IntoIter = std::vec::IntoIter<Commands<A>>;

    /// The commands, first one first.
    fn into_iter(self) -> (iter: std::vec::IntoIter<Commands<A>>)
        ensures
            IteratorSpec::remaining(&iter) == self.messages(),
    {
        broadcast use vstd::std_specs::vec::axiom_spec_into_iter;

        self.messages.into_iter()
    }
}

/// Trait for proxy [`AgentHook`] calls.
pub trait RawAgent {
    /// Called upon receiving the description of the game.
    fn on_start(&mut self, response: Response) -> NextRequest;

    /// Called upon receiving anything not handled by `on_start` and `on_end`.
    fn on_response(&mut self, response: Response) -> NextRequest;

    /// Called after the end of the game.
    fn on_end(&mut self);
}

/// Whether a response describes the game.
pub open spec fn describes_game(response: Response) -> bool {
    response.response matches Some(rResponse::GameInfo(_))
}

/// Whether a response describes the game.
pub fn is_game_info(response: &Response) -> (b: bool)
    ensures
        b == describes_game(*response),
{
    match &response.response {
        Some(rResponse::GameInfo(_)) => true,
        _ => false,
    }
}

/// RawAgent wrapper that passes [`RawAgent`] calls to [`AgentHook`].
pub struct NewRawAgent<A: RawAgent>(pub A);

impl<A: RawAgent> AgentHook for NewRawAgent<A> {
    type Producer = RawProducer;

    /// Asks for the description of the game.
    fn on_start_hook(&mut self) -> (next: NextRequest)
        ensures
            next == NextRequest::Agent(rRequest::GameInfo(RequestGameInfo {  })),
    {
        NextRequest::Agent(rRequest::GameInfo(RequestGameInfo {  }))
    }

    /// Hands the description of the game to `on_start` and every other
    /// response to `on_response`, and returns what the agent answers.
    fn on_step_hook(&mut self, response: Response) -> (next: NextRequest)
        ensures
            exists|agent: &mut A|
                {
                    &&& *agent == old(self).0
                    &&& *final(agent) == final(self).0
                    &&& if describes_game(response) {
                        call_ensures(A::on_start, (agent, response), next)
                    } else {
                        call_ensures(A::on_response, (agent, response), next)
                    }
                },
    {
        if is_game_info(&response) {
            return self.0.on_start(response);
        }
        self.0.on_response(response)
    }

    /// Tells the agent that the game is over.
    fn on_close_hook(&mut self)
        ensures
            exists|agent: &mut A|
                {
                    &&& *agent == old(self).0
                    &&& *final(agent) == final(self).0
                    &&& call_ensures(A::on_end, (agent,), ())
                },
    {
        self.0.on_end();
    }

    /// A producer of observations without fog of war, from game loop zero on.
    fn build_producer() -> (producer: RawProducer)
        ensures
            producer@ == (RawProducerView {
                count: 0,
                request: RequestObservation { disable_fog: Some(true), game_loop: Some(0) },
            }),
    {
        RawProducer::new(RequestObservation::nofog(0))
    }
}

/// What a producer of observations holds.
pub struct RawProducerView {
    /// The game loop of the next request.
    pub count: u32,
    /// The request that every produced one is made from.
    pub request: RequestObservation,
}

/// Produces requests for observations by copying the initial one, each for
/// the game loop after the last.
#[derive(Clone, Debug)]
pub struct RawProducer {
    count: u32,
    request: RequestObservation,
}

impl View for RawProducer {
    type V = RawProducerView;

    closed spec fn view(&self) -> RawProducerView {
        RawProducerView { count: self.count, request: self.request }
    }
}

impl RawProducer {
    /// Build a new RawProducer.
    pub fn new(request: RequestObservation) -> (producer: Self)
        ensures
            producer@ == (RawProducerView { count: 0, request }),
    {
        RawProducer { count: 0, request }
    }

    /// Moves on to the next game loop. After the largest one the count
    /// starts again at zero.
    pub fn increment(&mut self)
        ensures
            final(self)@ == (RawProducerView { count: next_id(old(self)@.count), ..old(self)@ }),
    {
        self.count = self.count.wrapping_add(1);
    }
}

impl Producer for RawProducer {
    /// The initial request for the current game loop; the producer then
    /// moves on to the next one.
    fn next(&mut self) -> (request: rRequest)
        ensures
            request == rRequest::Observation(
                RequestObservation { game_loop: Some(old(self)@.count), ..old(self)@.request },
            ),
            final(self)@ == (RawProducerView { count: next_id(old(self)@.count), ..old(self)@ }),
    {
        let mut request = self.request;
        request.game_loop = Some(self.count);
        self.increment();
        rRequest::Observation(request)
    }
}

} // verus!
