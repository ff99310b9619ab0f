//! The coordinator: takes commands one by one, checks each against the phase
//! rules, performs its handshake and keeps the phase flags.
//!
//! The coordinator does no I/O. For each command the caller calls
//! [`Coordinator::begin`], does what the returned [`Step`] names, and reports
//! back: a connection with [`Coordinator::connected`], received responses
//! with [`Coordinator::deliver`] and [`Coordinator::poll_handshake`]. Where a
//! command starts a game, the caller borrows the game loop with
//! [`Coordinator::play_game`] and returns it with [`Coordinator::end_game`].

use vstd::prelude::*;
use std::time::Duration;
use crate::error::{Cause, Error};
use crate::hook::{AgentHook, NextRequest, Producer};
use crate::protocol::request::Request as rRequest;
use crate::protocol::{
    Request, RequestLeaveGame, RequestQuit, RequestRestartGame, Response, Status,
};
use crate::runtime::builder::{CoordinatorConfig, DEFAULT_CORE_THREADS};
use crate::runtime::channel::{
    awaited, decisive, lemma_discarded, next_id, remaining, validate_status, Channel,
    ChannelView, Poll,
};
use crate::runtime::commands::{CommandKind, Commands, Endpoint};
use crate::runtime::ingame::{one_more_sent, queued, InGameRessource};
use crate::runtime::state::{legal, verdict, PhaseFlags, StateMachine};

verus! {

/// What the coordinator waits for.
#[derive(Debug, Clone, Copy, PartialEq, Eq, Structural)]
pub enum Pending {
    /// Nothing: the next command can begin.
    Idle,
    /// The outcome of a connection attempt.
    Connecting,
    /// The response to the handshake of a command, sent with identifier `id`.
    Handshake { kind: CommandKind, id: u32 },
    /// The caller, to start the game loop.
    Play,
    /// The game loop, to come back.
    Playing,
    /// Nothing any more: a failure has ended the run.
    Aborted,
}

/// What the caller has to do for a command that has begun.
#[derive(Debug, Clone, Copy, PartialEq, Eq)]
pub enum Step {
    /// Connect to the instance at this address, then report the outcome.
    Connect(Endpoint),
    /// Transmit what is queued, then await the response to this identifier.
    Handshake(u32),
}

/// How a command's handshake ended.
#[derive(Debug, Clone, Copy, PartialEq, Eq, Structural)]
pub enum Outcome {
    /// The command is done.
    Done,
    /// The game has started: the game loop is to run next.
    Play,
}

/// Whether a command starts the game loop once its handshake has succeeded.
pub open spec fn plays(kind: CommandKind) -> bool {
    kind == CommandKind::JoinGame || kind == CommandKind::StartReplay || kind
        == CommandKind::RestartGame
}

/// The one status that the response to a command's handshake must carry.
pub open spec fn expected_status(kind: CommandKind) -> Status {
    match kind {
        CommandKind::Launched => Status::Launched,
        CommandKind::CreateGame => Status::InitGame,
        CommandKind::JoinGame => Status::InGame,
        CommandKind::StartReplay => Status::InReplay,
        CommandKind::RestartGame => Status::InGame,
        CommandKind::LeaveGame => Status::Launched,
        CommandKind::QuitGame => Status::Quit,
    }
}

/// The phases after a command has succeeded: after its connection for
/// `Launched`, after its handshake for the others.
pub open spec fn entered(flags: PhaseFlags, kind: CommandKind) -> PhaseFlags {
    match kind {
        CommandKind::Launched => PhaseFlags { launched: true, ..flags },
        CommandKind::CreateGame => PhaseFlags { initializing: true, ..flags },
        CommandKind::JoinGame => PhaseFlags { in_game: true, ..flags },
        CommandKind::StartReplay => PhaseFlags { in_replay: true, ..flags },
        CommandKind::RestartGame => PhaseFlags { in_game: true, ..flags },
        CommandKind::LeaveGame => PhaseFlags { launched: true, ..PhaseFlags::none() },
        CommandKind::QuitGame => PhaseFlags::none(),
    }
}

/// The phases after the game loop has come back.
pub open spec fn finished(flags: PhaseFlags) -> PhaseFlags {
    PhaseFlags { ended: true, ..flags }
}

/// The combinations of phases that a run can be in: nothing is active
/// without a launch, a game excludes a replay, a replay excludes a game in
/// preparation, and only a game or a replay can have ended.
pub open spec fn defined(flags: PhaseFlags) -> bool {
    &&& flags.initializing || flags.in_replay || flags.in_game || flags.ended ==> flags.launched
    &&& !(flags.in_game && flags.in_replay)
    &&& !(flags.initializing && flags.in_replay)
    &&& flags.ended ==> flags.in_game || flags.in_replay
}

/// The one status that the response to a command's handshake must carry.
pub fn expected(kind: CommandKind) -> (status: Status)
    ensures
        status == expected_status(kind),
{
    match kind {
        CommandKind::Launched => Status::Launched,
        CommandKind::CreateGame => Status::InitGame,
        CommandKind::JoinGame => Status::InGame,
        CommandKind::StartReplay => Status::InReplay,
        CommandKind::RestartGame => Status::InGame,
        CommandKind::LeaveGame => Status::Launched,
        CommandKind::QuitGame => Status::Quit,
    }
}

/// A command that the rules accept leads from a defined combination of
/// phases to a defined one: when its handshake has succeeded, and again when
/// the game that it started is over.
pub proof fn lemma_legal_commands_stay_defined(flags: PhaseFlags, kind: CommandKind)
    requires
        defined(flags),
        legal(flags, kind),
    ensures
        defined(entered(flags, kind)),
        plays(kind) ==> defined(finished(entered(flags, kind))),
{
}

/// The phases after a command has run to its end: after its handshake and,
/// where it starts a game, after that game.
pub open spec fn completed(flags: PhaseFlags, kind: CommandKind) -> PhaseFlags {
    if plays(kind) {
        finished(entered(flags, kind))
    } else {
        entered(flags, kind)
    }
}

/// Whether every command of a sequence is accepted in its turn, each after
/// the one before it has run to its end.
pub open spec fn accepted(flags: PhaseFlags, kinds: Seq<CommandKind>) -> bool
    decreases kinds.len(),
{
    kinds.len() == 0 || (legal(flags, kinds[0]) && accepted(
        completed(flags, kinds[0]),
        kinds.skip(1),
    ))
}

/// The phases after a sequence of commands has run to its end.
pub open spec fn reached(flags: PhaseFlags, kinds: Seq<CommandKind>) -> PhaseFlags
    decreases kinds.len(),
{
    if kinds.len() == 0 {
        flags
    } else {
        reached(completed(flags, kinds[0]), kinds.skip(1))
    }
}

/// No accepted sequence of commands leaves the defined combinations of
/// phases.
pub proof fn lemma_accepted_sequences_stay_defined(flags: PhaseFlags, kinds: Seq<CommandKind>)
    requires
        defined(flags),
        accepted(flags, kinds),
    ensures
        defined(reached(flags, kinds)),
    decreases kinds.len(),
{
    if kinds.len() > 0 {
        lemma_legal_commands_stay_defined(flags, kinds[0]);
        lemma_accepted_sequences_stay_defined(completed(flags, kinds[0]), kinds.skip(1));
    }
}

/// A run starts with no phase active, which is a defined combination.
pub proof fn lemma_runs_stay_defined(kinds: Seq<CommandKind>)
    requires
        accepted(PhaseFlags::none(), kinds),
    ensures
        defined(reached(PhaseFlags::none(), kinds)),
{
    lemma_accepted_sequences_stay_defined(PhaseFlags::none(), kinds);
}

/// The verdict on a command depends on the active phases and on the kind of
/// the command, and on nothing else: not on what the command carries, and
/// not on when it is asked.
pub proof fn lemma_verdict_is_pure<A: AgentHook>(
    first: StateMachine,
    second: StateMachine,
    command: Commands<A>,
    again: Commands<A>,
)
    requires
        first@ == second@,
        command.spec_kind() == again.spec_kind(),
    ensures
        verdict(first@, command.spec_kind()) == verdict(second@, again.spec_kind()),
        verdict(first@, command.spec_kind()) is Ok <==> legal(second@, again.spec_kind()),
{
}

/// The request that a command's handshake sends. `Launched` has no
/// handshake: it connects.
pub open spec fn handshake_request<A: AgentHook>(command: Commands<A>) -> Option<rRequest> {
    match command {
        Commands::Launched { .. } => None,
        Commands::CreateGame { request } => Some(rRequest::CreateGame(request)),
        Commands::JoinGame { request, .. } => Some(rRequest::JoinGame(request)),
        Commands::StartReplay { request, .. } => Some(rRequest::StartReplay(request)),
        Commands::RestartGame => Some(rRequest::RestartGame(RequestRestartGame {  })),
        Commands::LeaveGame => Some(rRequest::LeaveGame(RequestLeaveGame {  })),
        Commands::QuitGame => Some(rRequest::Quit(RequestQuit {  })),
    }
}

/// The agent that the coordinator keeps once a command has begun: the
/// command's own where it brings one, else the one kept before.
pub open spec fn agent_after<A: AgentHook>(kept: Option<A>, command: Commands<A>) -> Option<A> {
    match command {
        Commands::JoinGame { agent, .. } => Some(agent),
        Commands::StartReplay { agent, .. } => Some(agent),
        _ => kept,
    }
}

/// What a coordinator holds.
pub struct CoordinatorView<A> {
    /// The active phases.
    pub flags: PhaseFlags,
    /// What the coordinator waits for.
    pub pending: Pending,
    /// The connection's channel, while the coordinator holds it.
    pub conn: Option<ChannelView>,
    /// The agent, while the coordinator holds it.
    pub agent: Option<A>,
    /// The identifier of the request sent last; zero where none was sent.
    pub count: u32,
    /// What the coordinator is configured with.
    pub config: CoordinatorConfig,
}

impl<A> CoordinatorView<A> {
    /// A coordinator that has seen no command.
    pub open spec fn fresh(config: CoordinatorConfig) -> CoordinatorView<A> {
        CoordinatorView {
            flags: PhaseFlags::none(),
            pending: Pending::Idle,
            conn: None,
            agent: None,
            count: 0,
            config,
        }
    }
}

impl<A> CoordinatorView<A> {
    /// What holds of every coordinator: its phases are a defined
    /// combination, and it holds the resources that its next move needs. The
    /// channel and the agent are with the coordinator, but for the time of a
    /// game, when they are with the game loop.
    pub open spec fn wf(self) -> bool {
        &&& defined(self.flags)
        &&& self.conn matches Some(c) ==> self.count == c.count
        &&& self.flags.ended && self.pending == Pending::Idle ==> self.agent is Some
        &&& match self.pending {
            Pending::Idle => self.flags.launched ==> self.conn is Some,
            Pending::Connecting => !self.flags.launched,
            Pending::Handshake { kind, id } => {
                &&& self.conn is Some
                &&& legal(self.flags, kind)
                &&& kind != CommandKind::Launched
                &&& id == self.count
                &&& plays(kind) ==> self.agent is Some
            },
            Pending::Play => {
                &&& self.conn is Some
                &&& self.agent is Some
                &&& self.flags.launched
                &&& self.flags.in_game || self.flags.in_replay
            },
            Pending::Playing => {
                &&& self.conn is None
                &&& self.agent is None
                &&& self.flags.launched
                &&& self.flags.in_game || self.flags.in_replay
            },
            Pending::Aborted => true,
        }
    }
}

/// What beginning a command does: what is returned, and what the
/// coordinator holds afterwards. A command that the rules refuse changes
/// nothing and queues nothing. `Launched` asks for a connection. Every other
/// command has its handshake request queued under the next identifier, and a
/// command that brings an agent leaves it with the coordinator. A coordinator
/// that is busy or aborted refuses every command.
pub open spec fn begins<A: AgentHook>(
    before: CoordinatorView<A>,
    command: Commands<A>,
    r: Result<Step, Error>,
    after: CoordinatorView<A>,
) -> bool {
    match before.pending {
        Pending::Idle => match verdict(before.flags, command.spec_kind()) {
            Err(e) => r == Err::<Step, Error>(e) && after == before,
            Ok(_) => match command {
                Commands::Launched { socket } => {
                    &&& r == Ok::<Step, Error>(Step::Connect(socket))
                    &&& after == (CoordinatorView {
                        pending: Pending::Connecting,
                        ..before
                    })
                },
                _ => {
                    let id = next_id(before.count);
                    let conn = before.conn->Some_0;
                    &&& r == Ok::<Step, Error>(Step::Handshake(id))
                    &&& after == (CoordinatorView {
                        flags: before.flags,
                        pending: Pending::Handshake { kind: command.spec_kind(), id },
                        conn: Some(
                            ChannelView {
                                count: id,
                                outbound: conn.outbound.push(
                                    Request::enveloped(handshake_request(command)->Some_0, id),
                                ),
                                ..conn
                            },
                        ),
                        agent: agent_after(before.agent, command),
                        count: id,
                        config: before.config,
                    })
                },
            },
        },
        Pending::Aborted => {
            &&& r == Err::<Step, Error>(Error::InvalidTransition(Cause::Aborted))
            &&& after == before
        },
        _ => {
            &&& r == Err::<Step, Error>(Error::InvalidTransition(Cause::Busy))
            &&& after == before
        },
    }
}

/// What looking for the response to a handshake does: what is returned, and
/// what the coordinator holds afterwards. Responses with another identifier
/// are dropped. Until the response is there the handshake is pending. A
/// response with the status that the command expects completes the command
/// and changes the phases; any other status, a failed stream or a closed one
/// ends the run and leaves the phases as they are.
pub open spec fn polls<A: AgentHook>(
    before: CoordinatorView<A>,
    poll: Poll<Result<Outcome, Error>>,
    after: CoordinatorView<A>,
) -> bool {
    match before.pending {
        Pending::Handshake { kind, id } => {
            let conn = before.conn->Some_0;
            let read = Some(
                ChannelView { inbound: remaining(conn.inbound, Some(id)), ..conn },
            );
            match awaited(conn.inbound, conn.closed, Some(id)) {
                Poll::Pending => {
                    &&& poll == Poll::<Result<Outcome, Error>>::Pending
                    &&& after == (CoordinatorView { conn: read, ..before })
                },
                Poll::Ready(Err(e)) => {
                    &&& poll == Poll::Ready(Err::<Outcome, Error>(e))
                    &&& after == (CoordinatorView {
                        conn: read,
                        pending: Pending::Aborted,
                        ..before
                    })
                },
                Poll::Ready(Ok(response)) => if response.status == Some(
                    expected_status(kind),
                ) {
                    &&& poll == Poll::Ready(
                        Ok::<Outcome, Error>(
                            if plays(kind) {
                                Outcome::Play
                            } else {
                                Outcome::Done
                            },
                        ),
                    )
                    &&& after == (CoordinatorView {
                        conn: read,
                        flags: entered(before.flags, kind),
                        pending: if plays(kind) {
                            Pending::Play
                        } else {
                            Pending::Idle
                        },
                        ..before
                    })
                } else {
                    &&& poll == Poll::Ready(
                        Err::<Outcome, Error>(
                            Error::UnexpectedStatus {
                                expected: expected_status(kind),
                                found: response.status,
                            },
                        ),
                    )
                    &&& after == (CoordinatorView {
                        conn: read,
                        pending: Pending::Aborted,
                        ..before
                    })
                },
            }
        },
        _ => {
            &&& poll == Poll::Ready(
                Err::<Outcome, Error>(Error::InvalidTransition(Cause::OutOfOrder)),
            )
            &&& after == before
        },
    }
}

/// A handshake that is answered with another status than its command expects
/// fails with `UnexpectedStatus`, which names both. The phases stay as they
/// were, nothing more is queued, and the run is over: every command after it
/// is refused, and changes nothing.
pub proof fn lemma_unexpected_status_aborts<A: AgentHook>(
    before: CoordinatorView<A>,
    response: Response,
    poll: Poll<Result<Outcome, Error>>,
    after: CoordinatorView<A>,
    later: Commands<A>,
    r: Result<Step, Error>,
    last: CoordinatorView<A>,
)
    requires
        before.pending matches Pending::Handshake { kind, id } && before.conn matches Some(conn)
            && awaited(conn.inbound, conn.closed, Some(id)) == Poll::Ready(
            Ok::<Response, Error>(response),
        ) && response.status != Some(expected_status(kind)),
        polls(before, poll, after),
        begins(after, later, r, last),
    ensures
        poll == Poll::Ready(
            Err::<Outcome, Error>(
                Error::UnexpectedStatus {
                    expected: expected_status(before.pending->Handshake_kind),
                    found: response.status,
                },
            ),
        ),
        after.flags == before.flags,
        after.pending == Pending::Aborted,
        after.count == before.count,
        after.conn->Some_0.outbound == before.conn->Some_0.outbound,
        r == Err::<Step, Error>(Error::InvalidTransition(Cause::Aborted)),
        last == after,
{
}

/// A handshake whose stream closes before the response is there fails with
/// `Disconnected`, and the run is over.
pub proof fn lemma_closed_stream_disconnects<A: AgentHook>(
    before: CoordinatorView<A>,
    poll: Poll<Result<Outcome, Error>>,
    after: CoordinatorView<A>,
)
    requires
        before.pending matches Pending::Handshake { kind, id } && before.conn matches Some(conn)
            && conn.closed && forall|i: int|
            0 <= i < conn.inbound.len() ==> !decisive(#[trigger] conn.inbound[i], Some(id)),
        polls(before, poll, after),
    ensures
        poll == Poll::Ready(Err::<Outcome, Error>(Error::Disconnected)),
        after.flags == before.flags,
        after.pending == Pending::Aborted,
{
    let conn = before.conn->Some_0;
    let id = before.pending->Handshake_id;
    lemma_discarded(conn.inbound, Some(id));
}

/// Coordinator of one run: a sequence of commands on one instance.
pub struct Coordinator<A: AgentHook> {
    sm: StateMachine,
    config: CoordinatorConfig,
    pending: Pending,
    conn: Option<Channel>,
    agent: Option<A>,
    count: u32,
}

impl<A: AgentHook> View for Coordinator<A> {
    type V = CoordinatorView<A>;

    closed spec fn view(&self) -> CoordinatorView<A> {
        CoordinatorView {
            flags: self.sm@,
            pending: self.pending,
            conn: match self.conn {
                Some(c) => Some(c@),
                None => None,
            },
            agent: self.agent,
            count: self.count,
            config: self.config,
        }
    }
}

impl<A: AgentHook> Default for Coordinator<A> {
    fn default() -> (coordinator: Self)
        ensures
            coordinator@.config.interval is None,
            coordinator@.config.core_threads == DEFAULT_CORE_THREADS,
            coordinator@ == CoordinatorView::<A>::fresh(coordinator@.config),
            coordinator@.wf(),
    {
        Coordinator::new()
    }
}

impl<A: AgentHook> Coordinator<A> {
    /// Build a new coordinator with default config.
    pub fn new() -> (coordinator: Self)
        ensures
            coordinator@.config.interval is None,
            coordinator@.config.core_threads == DEFAULT_CORE_THREADS,
            coordinator@ == CoordinatorView::<A>::fresh(coordinator@.config),
            coordinator@.wf(),
    {
        Coordinator::from_config(CoordinatorConfig::default())
    }

    /// A coordinator with the given configuration that has seen no command.
    pub fn from_config(config: CoordinatorConfig) -> (coordinator: Self)
        ensures
            coordinator@ == CoordinatorView::<A>::fresh(config),
            coordinator@.wf(),
    {
        Coordinator {
            sm: StateMachine::new(),
            config,
            pending: Pending::Idle,
            conn: None,
            agent: None,
            count: 0,
        }
    }

    /// The time between two rounds of the game loop, if one was asked for.
    pub fn interval(&self) -> (interval: Option<Duration>)
        ensures
            interval == self@.config.interval,
    {
        self.config.interval
    }

    /// The number of threads that run the game loop.
    pub fn core_threads(&self) -> (core_threads: usize)
        ensures
            core_threads == self@.config.core_threads,
    {
        self.config.core_threads
    }

    /// The active phases.
    pub fn flags(&self) -> (flags: PhaseFlags)
        ensures
            flags == self@.flags,
    {
        self.sm.flags()
    }

    /// What the coordinator waits for.
    pub fn pending(&self) -> (pending: Pending)
        ensures
            pending == self@.pending,
    {
        self.pending
    }

    /// The number of requests sent so far, as the identifier of the last one:
    /// what a run returns when its commands are done.
    pub fn count(&self) -> (count: u32)
        ensures
            count == self@.count,
    {
        self.count
    }

    /// Begins a command. The command is first checked against the active
    /// phases; a command that the rules refuse changes nothing and sends
    /// nothing. `Launched` asks the caller to connect. Every other command
    /// has its handshake request queued under the next identifier, and a
    /// command that brings an agent leaves it with the coordinator.
    pub fn begin(&mut self, command: Commands<A>) -> (r: Result<Step, Error>)
        requires
            old(self)@.wf(),
        ensures
            final(self)@.wf(),
            begins(old(self)@, command, r, final(self)@),
    {
        match self.pending {
            Pending::Idle => {},
            Pending::Aborted => {
                return Err(Error::InvalidTransition(Cause::Aborted));
            },
            _ => {
                return Err(Error::InvalidTransition(Cause::Busy));
            },
        }
        match self.sm.validate(&command) {
            Err(e) => {
                return Err(e);
            },
            Ok(_) => {},
        }
        match command {
            Commands::Launched { socket } => {
                self.pending = Pending::Connecting;
                Ok(Step::Connect(socket))
            },
            Commands::CreateGame { request } => self.send(
                CommandKind::CreateGame,
                rRequest::CreateGame(request),
            ),
            Commands::JoinGame { request, agent } => {
                self.agent = Some(agent);
                self.send(CommandKind::JoinGame, rRequest::JoinGame(request))
            },
            Commands::StartReplay { request, agent } => {
                self.agent = Some(agent);
                self.send(CommandKind::StartReplay, rRequest::StartReplay(request))
            },
            Commands::RestartGame => self.send(
                CommandKind::RestartGame,
                rRequest::RestartGame(RequestRestartGame {  }),
            ),
            Commands::LeaveGame => self.send(
                CommandKind::LeaveGame,
                rRequest::LeaveGame(RequestLeaveGame {  }),
            ),
            Commands::QuitGame => self.send(CommandKind::QuitGame, rRequest::Quit(RequestQuit {  })),
        }
    }

    /// Takes the outcome of the connection attempt that `Launched` asked
    /// for. A connection gives the coordinator a fresh channel, which goes on
    /// counting where the last one stopped, and flags the instance as
    /// launched; a failure ends the run.
    pub fn connected(&mut self, outcome: Result<(), Error>) -> (r: Result<(), Error>)
        requires
            old(self)@.wf(),
        ensures
            final(self)@.wf(),
            match old(self)@.pending {
                Pending::Connecting => match outcome {
                    Ok(_) => {
                        &&& r == Ok::<(), Error>(())
                        &&& final(self)@ == (CoordinatorView {
                            flags: entered(old(self)@.flags, CommandKind::Launched),
                            pending: Pending::Idle,
                            conn: Some(ChannelView::fresh(old(self)@.count)),
                            ..old(self)@
                        })
                    },
                    Err(e) => {
                        &&& r == Err::<(), Error>(e)
                        &&& final(self)@ == (CoordinatorView {
                            pending: Pending::Aborted,
                            ..old(self)@
                        })
                    },
                },
                _ => {
                    &&& r == Err::<(), Error>(Error::InvalidTransition(Cause::OutOfOrder))
                    &&& final(self)@ == old(self)@
                },
            },
    {
        match self.pending {
            Pending::Connecting => {},
            _ => {
                return Err(Error::InvalidTransition(Cause::OutOfOrder));
            },
        }
        match outcome {
            Ok(_) => {
                self.conn = Some(Channel::starting_at(self.count));
                self.sm.launched();
                self.pending = Pending::Idle;
                Ok(())
            },
            Err(e) => {
                self.pending = Pending::Aborted;
                Err(e)
            },
        }
    }

    /// Hands the queued requests to the transport, oldest first. There are
    /// none while the game loop holds the channel.
    pub fn take_outbound(&mut self) -> (requests: Vec<Request>)
        ensures
            match old(self)@.conn {
                Some(conn) => {
                    &&& requests@ == conn.outbound
                    &&& final(self)@ == (CoordinatorView {
                        conn: Some(ChannelView { outbound: Seq::empty(), ..conn }),
                        ..old(self)@
                    })
                },
                None => requests@ == Seq::<Request>::empty() && final(self)@ == old(self)@,
            },
    {
        match self.conn.take() {
            Some(mut conn) => {
                let requests = conn.take_outbound();
                self.conn = Some(conn);
                requests
            },
            None => Vec::new(),
        }
    }

    /// Takes in what the transport received. It is dropped while the game
    /// loop holds the channel.
    pub fn deliver(&mut self, item: Result<Response, Error>)
        ensures
            match old(self)@.conn {
                Some(conn) => final(self)@ == (CoordinatorView {
                    conn: Some(ChannelView { inbound: conn.inbound.push(item), ..conn }),
                    ..old(self)@
                }),
                None => final(self)@ == old(self)@,
            },
    {
        match self.conn.take() {
            Some(mut conn) => {
                conn.deliver(item);
                self.conn = Some(conn);
            },
            None => {},
        }
    }

    /// Notes that the response stream has closed.
    pub fn close(&mut self)
        ensures
            match old(self)@.conn {
                Some(conn) => final(self)@ == (CoordinatorView {
                    conn: Some(ChannelView { closed: true, ..conn }),
                    ..old(self)@
                }),
                None => final(self)@ == old(self)@,
            },
    {
        match self.conn.take() {
            Some(mut conn) => {
                conn.close();
                self.conn = Some(conn);
            },
            None => {},
        }
    }

    /// Looks for the response to the handshake that is under way. Responses
    /// with another identifier are dropped. Until the response is there the
    /// handshake is pending. A response with the status that the command
    /// expects completes the command and changes the phases; any other
    /// status, a failed stream or a closed one ends the run.
    pub fn poll_handshake(&mut self) -> (poll: Poll<Result<Outcome, Error>>)
        requires
            old(self)@.wf(),
        ensures
            final(self)@.wf(),
            polls(old(self)@, poll, final(self)@),
    {
        let (kind, id) = match self.pending {
            Pending::Handshake { kind, id } => (kind, id),
            _ => {
                return Poll::Ready(Err(Error::InvalidTransition(Cause::OutOfOrder)));
            },
        };
        let mut conn = self.get_ressource(false, true).1.unwrap();
        let waited = conn.await_matching(Some(id));
        self.reset_ressource(None, Some(conn));
        let response = match waited {
            Poll::Pending => {
                return Poll::Pending;
            },
            Poll::Ready(Err(e)) => {
                self.pending = Pending::Aborted;
                return Poll::Ready(Err(e));
            },
            Poll::Ready(Ok(response)) => response,
        };
        match validate_status(response.status, expected(kind)) {
            Err(e) => {
                self.pending = Pending::Aborted;
                return Poll::Ready(Err(e));
            },
            Ok(_) => {},
        }
        proof {
            lemma_legal_commands_stay_defined(self.sm@, kind);
        }
        match kind {
            CommandKind::CreateGame => {
                self.sm.initgame();
                self.pending = Pending::Idle;
                Poll::Ready(Ok(Outcome::Done))
            },
            CommandKind::JoinGame => {
                self.sm.ingame();
                self.pending = Pending::Play;
                Poll::Ready(Ok(Outcome::Play))
            },
            CommandKind::StartReplay => {
                self.sm.inreplay();
                self.pending = Pending::Play;
                Poll::Ready(Ok(Outcome::Play))
            },
            CommandKind::RestartGame => {
                self.sm.ingame();
                self.pending = Pending::Play;
                Poll::Ready(Ok(Outcome::Play))
            },
            CommandKind::LeaveGame => {
                self.sm.reset();
                self.sm.launched();
                self.pending = Pending::Idle;
                Poll::Ready(Ok(Outcome::Done))
            },
            CommandKind::QuitGame => {
                self.sm.reset();
                self.pending = Pending::Idle;
                Poll::Ready(Ok(Outcome::Done))
            },
            CommandKind::Launched => {
                self.pending = Pending::Idle;
                Poll::Ready(Ok(Outcome::Done))
            },
        }
    }

    /// Starts the game loop once the handshake of a command that plays has
    /// succeeded. The channel and the agent leave the coordinator and go to
    /// the game loop, which asks the agent for its first request and sends
    /// it. Until they are back the coordinator has neither.
    pub fn play_game(&mut self) -> (r: Result<InGameRessource<A>, Error>)
        requires
            old(self)@.wf(),
        ensures
            final(self)@.wf(),
            match old(self)@.pending {
                Pending::Play => {
                    &&& r matches Ok(ig)
                    &&& one_more_sent(old(self)@.conn->Some_0, ig@.channel)
                    &&& !ig@.lock
                    &&& ig@.failure is None
                    &&& exists|start: &mut A, decision: NextRequest, built: A::Producer|
                        {
                            &&& *start == old(self)@.agent->Some_0
                            &&& *final(start) == ig@.agent
                            &&& call_ensures(A::on_start_hook, (start,), decision)
                            &&& call_ensures(A::build_producer, (), built)
                            &&& match decision {
                                NextRequest::Agent(req) => {
                                    &&& ig@.prod == built
                                    &&& ig@.channel == queued(old(self)@.conn->Some_0, req)
                                },
                                NextRequest::Observation => exists|
                                    producer: &mut A::Producer,
                                    req: rRequest,
                                |
                                    {
                                        &&& *producer == built
                                        &&& *final(producer) == ig@.prod
                                        &&& call_ensures(
                                            <A::Producer as Producer>::next,
                                            (producer,),
                                            req,
                                        )
                                        &&& ig@.channel == queued(old(self)@.conn->Some_0, req)
                                    },
                            }
                        }
                    &&& final(self)@ == (CoordinatorView {
                        pending: Pending::Playing,
                        conn: None,
                        agent: None,
                        ..old(self)@
                    })
                },
                _ => {
                    &&& r matches Err(e)
                    &&& e == Error::InvalidTransition(Cause::OutOfOrder)
                    &&& final(self)@ == old(self)@
                },
            },
    {
        match self.pending {
            Pending::Play => {},
            _ => {
                return Err(Error::InvalidTransition(Cause::OutOfOrder));
            },
        }
        let (agent, ss) = self.get_ressource(true, true);
        let conn = ss.unwrap();
        let agent = agent.unwrap();
        self.pending = Pending::Playing;
        Ok(InGameRessource::new(conn, agent))
    }

    /// Takes the game loop back when it is over. The agent is told that the
    /// game has closed, the channel and the agent return to the coordinator,
    /// and the game is flagged as ended. Where the loop was cancelled by a
    /// failure, the failure ends the run instead.
    pub fn end_game(&mut self, ig: InGameRessource<A>) -> (r: Result<u32, Error>)
        requires
            old(self)@.wf(),
        ensures
            final(self)@.wf(),
            match old(self)@.pending {
                Pending::Playing => {
                    &&& final(self)@.conn == Some(ig@.channel)
                    &&& exists|agent: &mut A|
                        {
                            &&& *agent == ig@.agent
                            &&& final(self)@.agent == Some(*final(agent))
                            &&& call_ensures(A::on_close_hook, (agent,), ())
                        }
                    &&& final(self)@.count == ig@.channel.count
                    &&& final(self)@.config == old(self)@.config
                    &&& match ig@.failure {
                        Some(e) => {
                            &&& r == Err::<u32, Error>(e)
                            &&& final(self)@.pending == Pending::Aborted
                            &&& final(self)@.flags == old(self)@.flags
                        },
                        None => {
                            &&& r == Ok::<u32, Error>(ig@.channel.count)
                            &&& final(self)@.pending == Pending::Idle
                            &&& final(self)@.flags == finished(old(self)@.flags)
                        },
                    }
                },
                _ => {
                    &&& r == Err::<u32, Error>(Error::InvalidTransition(Cause::OutOfOrder))
                    &&& final(self)@ == old(self)@
                },
            },
    {
        match self.pending {
            Pending::Playing => {},
            _ => {
                return Err(Error::InvalidTransition(Cause::OutOfOrder));
            },
        }
        let (conn, mut agent, failure) = ig.into_parts();
        agent.on_close_hook();
        self.count = conn.count();
        self.reset_ressource(Some(agent), Some(conn));
        match failure {
            Some(e) => {
                self.pending = Pending::Aborted;
                Err(e)
            },
            None => {
                self.sm.ended();
                self.pending = Pending::Idle;
                Ok(self.count)
            },
        }
    }

    /// Queues the handshake request of a command and waits for its response.
    fn send(&mut self, kind: CommandKind, request: rRequest) -> (r: Result<Step, Error>)
        requires
            old(self).conn is Some,
        ensures
            ({
                let id = next_id(old(self).conn->Some_0@.count);
                let conn = old(self).conn->Some_0@;
                &&& r == Ok::<Step, Error>(Step::Handshake(id))
                &&& final(self).sm == old(self).sm
                &&& final(self).config == old(self).config
                &&& final(self).agent == old(self).agent
                &&& final(self).pending == Pending::Handshake { kind, id }
                &&& final(self).count == id
                &&& final(self).conn is Some
                &&& final(self).conn->Some_0@ == ChannelView {
                    count: id,
                    outbound: conn.outbound.push(Request::enveloped(request, id)),
                    ..conn
                }
            }),
    {
        let mut conn = self.get_ressource(false, true).1.unwrap();
        let id = conn.send(request);
        self.reset_ressource(None, Some(conn));
        self.count = id;
        self.pending = Pending::Handshake { kind, id };
        Ok(Step::Handshake(id))
    }

    /// Puts back the resources that are given, and leaves alone those that
    /// are not.
    fn reset_ressource(&mut self, agent: Option<A>, conn: Option<Channel>)
        ensures
            final(self).sm == old(self).sm,
            final(self).config == old(self).config,
            final(self).pending == old(self).pending,
            final(self).count == old(self).count,
            final(self).agent == if agent is Some {
                agent
            } else {
                old(self).agent
            },
            final(self).conn == if conn is Some {
                conn
            } else {
                old(self).conn
            },
    {
        match agent {
            Some(a) => {
                self.agent = Some(a);
            },
            None => {},
        }
        match conn {
            Some(c) => {
                self.conn = Some(c);
            },
            None => {},
        }
    }

    /// Takes out the resources that are asked for. What is taken is no longer
    /// with the coordinator: a second request for it finds nothing.
    fn get_ressource(&mut self, agent: bool, conn: bool) -> (ressource: (Option<A>, Option<Channel>))
        ensures
            final(self).sm == old(self).sm,
            final(self).config == old(self).config,
            final(self).pending == old(self).pending,
            final(self).count == old(self).count,
            ressource.0 == if agent {
                old(self).agent
            } else {
                None
            },
            ressource.1 == if conn {
                old(self).conn
            } else {
                None
            },
            final(self).agent == if agent {
                None
            } else {
                old(self).agent
            },
            final(self).conn == if conn {
                None
            } else {
                old(self).conn
            },
    {
        let mut ressource: (Option<A>, Option<Channel>) = (None, None);
        if agent {
            ressource.0 = self.agent.take();
        }
        if conn {
            ressource.1 = self.conn.take();
        }
        ressource
    }
}

} // verus!
