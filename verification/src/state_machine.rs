//! The lifecycle of one game as a single state, with handles that stand for
//! the state the game is in.
//!
//! A handle borrows the state for as long as it lives. Each step of the
//! lifecycle consumes the handle of the state it leaves and returns the
//! handle of the state it enters, so that a caller who holds a handle can
//! only take the steps that its state allows.

use vstd::prelude::*;
use vstd::std_specs::convert::FromSpecImpl;
use either::Either;
use crate::error::{Cause, Error};
use crate::protocol::response::Response as rResponse;
use crate::protocol::{Response, Status};

verus! {

/// The state of one game.
#[derive(Debug, Clone, Copy, PartialEq, Eq, Structural)]
pub enum Core {
    Launched {  },
    InitGame {  },
    InGame {  },
    InReplay {  },
    Ended {  },
}

/// The table of steps: whether a game in state `from` may go to state `to`.
pub open spec fn allowed(from: Core, to: Core) -> bool {
    match (from, to) {
        (Core::Launched {  }, Core::InitGame {  }) => true,
        (Core::Launched {  }, Core::InGame {  }) => true,
        (Core::Launched {  }, Core::InReplay {  }) => true,
        (Core::InitGame {  }, Core::InGame {  }) => true,
        (Core::InGame {  }, Core::InGame {  }) => true,
        (Core::InGame {  }, Core::Ended {  }) => true,
        (Core::InReplay {  }, Core::InReplay {  }) => true,
        (Core::InReplay {  }, Core::Ended {  }) => true,
        (Core::Ended {  }, Core::Launched {  }) => true,
        (Core::Ended {  }, Core::InGame {  }) => true,
        _ => false,
    }
}

impl Core {
    /// The state of a launched instance in which no game was created.
    pub fn init() -> (state: Self)
        ensures
            state == (Core::Launched {  }),
    {
        Core::Launched {  }
    }

    /// The handle of the launched state, if that is the state.
    pub fn launched(&mut self) -> (handle: Option<Launched<'_>>)
        ensures
            handle is Some <==> *old(self) == (Core::Launched {  }),
            handle matches Some(h) ==> *h.0 == *old(self) && *final(self) == *final(h.0),
            handle is None ==> *final(self) == *old(self),
    {
        match self {
            Core::Launched {  } => Some(Launched(self)),
            _ => None,
        }
    }

    /// Whether the table of steps allows the step from this state to `to`.
    pub fn allows(&self, to: &Core) -> (ok: bool)
        ensures
            ok == allowed(*self, *to),
    {
        match (self, to) {
            (Core::Launched {  }, Core::InitGame {  }) => true,
            (Core::Launched {  }, Core::InGame {  }) => true,
            (Core::Launched {  }, Core::InReplay {  }) => true,
            (Core::InitGame {  }, Core::InGame {  }) => true,
            (Core::InGame {  }, Core::InGame {  }) => true,
            (Core::InGame {  }, Core::Ended {  }) => true,
            (Core::InReplay {  }, Core::InReplay {  }) => true,
            (Core::InReplay {  }, Core::Ended {  }) => true,
            (Core::Ended {  }, Core::Launched {  }) => true,
            (Core::Ended {  }, Core::InGame {  }) => true,
            _ => false,
        }
    }

    /// Takes a step that the table allows, and returns the state left behind.
    pub fn replace(&mut self, new: Self) -> (previous: Self)
        requires
            allowed(*old(self), new),
        ensures
            *final(self) == new,
            previous == *old(self),
    {
        let previous = *self;
        *self = new;
        previous
    }

    /// Takes a step if the table allows it, and returns the state left
    /// behind. A step that the table does not allow changes nothing and is
    /// handed back.
    pub fn try_replace(&mut self, new: Self) -> (r: Result<Self, Self>)
        ensures
            allowed(*old(self), new) ==> r == Ok::<Core, Core>(*old(self)) && *final(self) == new,
            !allowed(*old(self), new) ==> r == Err::<Core, Core>(new) && *final(self) == *old(self),
    {
        if self.allows(&new) {
            Ok(self.replace(new))
        } else {
            Err(new)
        }
    }
}

impl Default for Core {
    fn default() -> (state: Self)
        ensures
            state == (Core::Launched {  }),
    {
        Core::init()
    }
}

/// The lifecycle requests whose answer decides a step.
#[derive(Debug, Clone, Copy, PartialEq, Eq, Structural)]
pub enum Call {
    CreateGame,
    JoinGame,
    StartReplay,
}

/// Whether a response answers the given request without an error of its own.
pub open spec fn answers(response: Response, call: Call) -> bool {
    match (response.response, call) {
        (Some(rResponse::CreateGame(outcome)), Call::CreateGame) => outcome.error is None,
        (Some(rResponse::JoinGame(outcome)), Call::JoinGame) => outcome.error is None,
        (Some(rResponse::StartReplay(outcome)), Call::StartReplay) => outcome.error is None,
        _ => false,
    }
}

/// What the reply to a lifecycle request amounts to. A failure of the stream
/// is an error. The response counts where the instance goes on running and
/// the response answers the request without an error of its own; a closed
/// stream and every other response count as no answer.
pub open spec fn served(reply: Option<Result<Response, Error>>, call: Call) -> Result<
    Option<Response>,
    Error,
> {
    match reply {
        None => Ok(None),
        Some(Err(e)) => Err(e),
        Some(Ok(response)) => if response.status == Some(Status::Quit) || response.status == Some(
            Status::Unknown,
        ) {
            Ok(None)
        } else if answers(response, call) {
            Ok(Some(response))
        } else {
            Ok(None)
        },
    }
}

/// Judges the reply to a lifecycle request.
pub fn server_call(reply: Option<Result<Response, Error>>, call: Call) -> (r: Result<
    Option<Response>,
    Error,
>)
    ensures
        r == served(reply, call),
{
    let res = match reply {
        Some(Ok(res)) => res,
        Some(Err(err)) => {
            return Err(err);
        },
        None => {
            return Ok(None);
        },
    };
    match res.status {
        Some(Status::Quit) => {
            return Ok(None);
        },
        Some(Status::Unknown) => {
            return Ok(None);
        },
        _ => {},
    }
    let accepted = match (&res.response, call) {
        (Some(rResponse::CreateGame(outcome)), Call::CreateGame) => outcome.error.is_none(),
        (Some(rResponse::JoinGame(outcome)), Call::JoinGame) => outcome.error.is_none(),
        (Some(rResponse::StartReplay(outcome)), Call::StartReplay) => outcome.error.is_none(),
        _ => false,
    };
    if accepted {
        Ok(Some(res))
    } else {
        Ok(None)
    }
}

/// Handle of a launched instance.
pub struct Launched<'a>(pub &'a mut Core);

/// Handle of a created game.
pub struct InitGame<'a>(pub &'a mut Core);

/// Handle of a game that is played.
pub struct InGame<'a>(pub &'a mut Core);

/// Handle of a replay that is played.
pub struct InReplay<'a>(pub &'a mut Core);

/// Handle of a game or replay that is over.
pub struct Ended<'a>(pub &'a mut Core);

impl<'a> From<&'a mut Core> for Launched<'a> {
    /// A handle on the given state.
    fn from(rhs: &'a mut Core) -> (handle: Launched<'a>)
        ensures
            *handle.0 == *old(rhs),
            *final(rhs) == *final(handle.0),
    {
        Launched(rhs)
    }
}

impl<'a> FromSpecImpl<&'a mut Core> for Launched<'a> {
    open spec fn obeys_from_spec() -> bool {
        false
    }

    open spec fn from_spec(rhs: &'a mut Core) -> Launched<'a> {
        Launched(rhs)
    }
}

impl<'a> From<Launched<'a>> for InitGame<'a> {
    /// A handle on the same state.
    fn from(rhs: Launched<'a>) -> (handle: InitGame<'a>)
        ensures
            *handle.0 == *old(rhs.0),
            *final(rhs.0) == *final(handle.0),
    {
        InitGame(rhs.0)
    }
}

impl<'a> FromSpecImpl<Launched<'a>> for InitGame<'a> {
    open spec fn obeys_from_spec() -> bool {
        false
    }

    open spec fn from_spec(rhs: Launched<'a>) -> InitGame<'a> {
        InitGame(rhs.0)
    }
}

impl<'a> From<Launched<'a>> for InGame<'a> {
    /// A handle on the same state.
    fn from(rhs: Launched<'a>) -> (handle: InGame<'a>)
        ensures
            *handle.0 == *old(rhs.0),
            *final(rhs.0) == *final(handle.0),
    {
        InGame(rhs.0)
    }
}

impl<'a> FromSpecImpl<Launched<'a>> for InGame<'a> {
    open spec fn obeys_from_spec() -> bool {
        false
    }

    open spec fn from_spec(rhs: Launched<'a>) -> InGame<'a> {
        InGame(rhs.0)
    }
}

impl<'a> From<InitGame<'a>> for InGame<'a> {
    /// A handle on the same state.
    fn from(rhs: InitGame<'a>) -> (handle: InGame<'a>)
        ensures
            *handle.0 == *old(rhs.0),
            *final(rhs.0) == *final(handle.0),
    {
        InGame(rhs.0)
    }
}

impl<'a> FromSpecImpl<InitGame<'a>> for InGame<'a> {
    open spec fn obeys_from_spec() -> bool {
        false
    }

    open spec fn from_spec(rhs: InitGame<'a>) -> InGame<'a> {
        InGame(rhs.0)
    }
}

impl<'a> From<Launched<'a>> for InReplay<'a> {
    /// A handle on the same state.
    fn from(rhs: Launched<'a>) -> (handle: InReplay<'a>)
        ensures
            *handle.0 == *old(rhs.0),
            *final(rhs.0) == *final(handle.0),
    {
        InReplay(rhs.0)
    }
}

impl<'a> FromSpecImpl<Launched<'a>> for InReplay<'a> {
    open spec fn obeys_from_spec() -> bool {
        false
    }

    open spec fn from_spec(rhs: Launched<'a>) -> InReplay<'a> {
        InReplay(rhs.0)
    }
}

impl<'a> From<InGame<'a>> for Ended<'a> {
    /// A handle on the same state.
    fn from(rhs: InGame<'a>) -> (handle: Ended<'a>)
        ensures
            *handle.0 == *old(rhs.0),
            *final(rhs.0) == *final(handle.0),
    {
        Ended(rhs.0)
    }
}

impl<'a> FromSpecImpl<InGame<'a>> for Ended<'a> {
    open spec fn obeys_from_spec() -> bool {
        false
    }

    open spec fn from_spec(rhs: InGame<'a>) -> Ended<'a> {
        Ended(rhs.0)
    }
}

impl<'a> From<InReplay<'a>> for Ended<'a> {
    /// A handle on the same state.
    fn from(rhs: InReplay<'a>) -> (handle: Ended<'a>)
        ensures
            *handle.0 == *old(rhs.0),
            *final(rhs.0) == *final(handle.0),
    {
        Ended(rhs.0)
    }
}

impl<'a> FromSpecImpl<InReplay<'a>> for Ended<'a> {
    open spec fn obeys_from_spec() -> bool {
        false
    }

    open spec fn from_spec(rhs: InReplay<'a>) -> Ended<'a> {
        Ended(rhs.0)
    }
}

impl<'a> Launched<'a> {
    /// The state behind the handle.
    pub fn core_mut(&mut self) -> (state: &mut Core)
        ensures
            *state == *old(self).0,
            *final(self).0 == *final(state),
            *final(final(self).0) == *final(old(self).0),
    {
        self.0
    }

    /// Takes the step to a game that is played, if the reply to the request
    /// to join one allows it. Without an answer the state stays as it is.
    pub fn join_game(self, reply: Option<Result<Response, Error>>) -> (r: Result<
        Option<InGame<'a>>,
        Error,
    >)
        requires
            *self.0 == (Core::Launched {  }),
        ensures
            match served(reply, Call::JoinGame) {
                Err(e) => r matches Err(x) && x == e && *final(self.0) == *old(self.0),
                Ok(None) => r matches Ok(None) && *final(self.0) == *old(self.0),
                Ok(Some(_)) => {
                    &&& r matches Ok(Some(next))
                    &&& *next.0 == (Core::InGame {  })
                    &&& *final(self.0) == *final(next.0)
                },
            },
    {
        match server_call(reply, Call::JoinGame) {
            Err(e) => Err(e),
            Ok(None) => Ok(None),
            Ok(Some(_)) => {
                self.0.replace(Core::InGame {  });
                Ok(Some(InGame(self.0)))
            },
        }
    }

    /// Takes the step to a replay that is played, if the reply to the request
    /// to start one allows it. Without an answer the state stays as it is.
    pub fn join_replay(self, reply: Option<Result<Response, Error>>) -> (r: Result<
        Option<InReplay<'a>>,
        Error,
    >)
        requires
            *self.0 == (Core::Launched {  }),
        ensures
            match served(reply, Call::StartReplay) {
                Err(e) => r matches Err(x) && x == e && *final(self.0) == *old(self.0),
                Ok(None) => r matches Ok(None) && *final(self.0) == *old(self.0),
                Ok(Some(_)) => {
                    &&& r matches Ok(Some(next))
                    &&& *next.0 == (Core::InReplay {  })
                    &&& *final(self.0) == *final(next.0)
                },
            },
    {
        match server_call(reply, Call::StartReplay) {
            Err(e) => Err(e),
            Ok(None) => Ok(None),
            Ok(Some(_)) => {
                self.0.replace(Core::InReplay {  });
                Ok(Some(InReplay(self.0)))
            },
        }
    }

    /// Takes the step to a created game, if the reply to the request to
    /// create one allows it. Without an answer the state stays as it is.
    pub fn create_game(self, reply: Option<Result<Response, Error>>) -> (r: Result<
        Option<InitGame<'a>>,
        Error,
    >)
        requires
            *self.0 == (Core::Launched {  }),
        ensures
            match served(reply, Call::CreateGame) {
                Err(e) => r matches Err(x) && x == e && *final(self.0) == *old(self.0),
                Ok(None) => r matches Ok(None) && *final(self.0) == *old(self.0),
                Ok(Some(_)) => {
                    &&& r matches Ok(Some(next))
                    &&& *next.0 == (Core::InitGame {  })
                    &&& *final(self.0) == *final(next.0)
                },
            },
    {
        match server_call(reply, Call::CreateGame) {
            Err(e) => Err(e),
            Ok(None) => Ok(None),
            Ok(Some(_)) => {
                self.0.replace(Core::InitGame {  });
                Ok(Some(InitGame(self.0)))
            },
        }
    }
}

impl<'a> InitGame<'a> {
    /// The state behind the handle.
    pub fn core_mut(&mut self) -> (state: &mut Core)
        ensures
            *state == *old(self).0,
            *final(self).0 == *final(state),
            *final(final(self).0) == *final(old(self).0),
    {
        self.0
    }

    /// Takes the step to a game that is played, if the reply to the request
    /// to join it allows it. Without an answer the state stays as it is.
    pub fn join_game(self, reply: Option<Result<Response, Error>>) -> (r: Result<
        Option<InGame<'a>>,
        Error,
    >)
        requires
            *self.0 == (Core::InitGame {  }),
        ensures
            match served(reply, Call::JoinGame) {
                Err(e) => r matches Err(x) && x == e && *final(self.0) == *old(self.0),
                Ok(None) => r matches Ok(None) && *final(self.0) == *old(self.0),
                Ok(Some(_)) => {
                    &&& r matches Ok(Some(next))
                    &&& *next.0 == (Core::InGame {  })
                    &&& *final(self.0) == *final(next.0)
                },
            },
    {
        match server_call(reply, Call::JoinGame) {
            Err(e) => Err(e),
            Ok(None) => Ok(None),
            Ok(Some(_)) => {
                self.0.replace(Core::InGame {  });
                Ok(Some(InGame(self.0)))
            },
        }
    }
}

impl<'a> InGame<'a> {
    /// The state behind the handle.
    pub fn core_mut(&mut self) -> (state: &mut Core)
        ensures
            *state == *old(self).0,
            *final(self).0 == *final(state),
            *final(final(self).0) == *final(old(self).0),
    {
        self.0
    }

    /// Follows the responses of the game until the one that ends it.
    pub fn stream(self) -> (listener: InGameListener<'a>)
        ensures
            listener.state() matches Either::Left(Some(handle)) && handle == self,
    {
        InGameListener::new(self)
    }
}

#[verifier::external_type_specification]
#[verifier::reject_recursive_types(L)]
#[verifier::reject_recursive_types(R)]
pub struct ExEither<L, R>(Either<L, R>);

/// `Either::is_right` tells the two variants apart: it returns `true` for a
/// `Right` and `false` for a `Left`.
pub assume_specification<L, R>[ Either::<L, R>::is_right ](e: &Either<L, R>) -> (b: bool)
    ensures
        b == (e is Right),
;

/// Ends the game of a listener's state. A game that is played goes to its
/// ended state; a game that has ended stays so. A state from which the handle
/// was taken has no game to end.
pub fn try_end_game<'sm>(state: Either<Option<InGame<'sm>>, Ended<'sm>>) -> (r: Result<
    Ended<'sm>,
    Error,
>)
    requires
        state matches Either::Left(Some(ingame)) ==> allowed(*ingame.0, Core::Ended {  }),
    ensures
        match state {
            Either::Left(Some(ingame)) => {
                &&& r matches Ok(ended)
                &&& *ended.0 == (Core::Ended {  })
                &&& *final(ingame.0) == *final(ended.0)
            },
            Either::Left(None) => r matches Err(e) && e == Error::InvalidTransition(
                Cause::AlreadyEnded,
            ),
            Either::Right(ended) => r matches Ok(same) && same == ended,
        },
{
    match state {
        Either::Left(ingame) => {
            if let Some(ingame) = ingame {
                ingame.0.replace(Core::Ended {  });
                Ok(Ended(ingame.0))
            } else {
                Err(Error::InvalidTransition(Cause::AlreadyEnded))
            }
        },
        Either::Right(ended) => Ok(ended),
    }
}

/// Follows the responses of one game and ends the game with the response
/// that says so.
pub struct InGameListener<'sm> {
    state: Either<Option<InGame<'sm>>, Ended<'sm>>,
}

impl<'sm> InGameListener<'sm> {
    /// The game while it is played, its ended state afterwards.
    pub closed spec fn state(&self) -> Either<Option<InGame<'sm>>, Ended<'sm>> {
        self.state
    }

    /// What holds of a listener between its steps: while the game is played
    /// the listener holds its handle, and the game can be ended.
    pub open spec fn wf(&self) -> bool {
        self.state() matches Either::Left(handle) ==> handle matches Some(ingame) && allowed(
            *ingame.0,
            Core::Ended {  },
        )
    }

    /// A listener for a game that is played.
    pub fn new(state: InGame<'sm>) -> (listener: Self)
        ensures
            listener.state() matches Either::Left(Some(handle)) && handle == state,
    {
        InGameListener { state: Either::Left(Some(state)) }
    }

    /// Whether the game has ended: no response is passed on any more.
    pub fn is_ended(&self) -> (ended: bool)
        ensures
            ended == (self.state() is Right),
    {
        self.state.is_right()
    }

    /// The ended state of the game. A game that is still played is ended.
    pub fn into_ended(self) -> (ended: Ended<'sm>)
        requires
            self.wf(),
        ensures
            match self.state() {
                Either::Left(Some(ingame)) => *ended.0 == (Core::Ended {  }) && *final(ingame.0)
                    == *final(ended.0),
                Either::Left(None) => true,
                Either::Right(same) => ended == same,
            },
    {
        match try_end_game(self.state) {
            Ok(ended) => ended,
            Err(_) => vstd::pervasive::unreached(),
        }
    }

    /// Passes on what the stream of responses yields, until the game ends.
    /// The response that says that the game has ended takes the game to its
    /// ended state and is not passed on; neither is anything after it.
    pub fn poll_next(&mut self, response: Option<Result<Response, Error>>) -> (item: Option<
        Result<Response, Error>,
    >)
        requires
            old(self).wf(),
        ensures
            final(self).wf(),
            match old(self).state() {
                Either::Right(_) => item is None && final(self).state() == old(self).state(),
                Either::Left(Some(ingame)) => if response matches Some(Ok(last)) && last.status
                    == Some(Status::Ended) {
                    &&& item is None
                    &&& final(self).state() matches Either::Right(ended)
                    &&& *ended.0 == (Core::Ended {  })
                    &&& *final(ingame.0) == *final(ended.0)
                } else {
                    &&& item == response
                    &&& final(self).state() == old(self).state()
                },
                Either::Left(None) => true,
            },
    {
        if self.state.is_right() {
            return None;
        }
        let match_ended = match &response {
            Some(Ok(last)) => match last.status {
                Some(Status::Ended) => true,
                _ => false,
            },
            _ => false,
        };
        if match_ended {
            let mut state: Either<Option<InGame<'sm>>, Ended<'sm>> = Either::Left(None);
            std::mem::swap(&mut self.state, &mut state);
            match try_end_game(state) {
                Ok(ended) => {
                    self.state = Either::Right(ended);
                },
                Err(_) => {},
            }
            return None;
        }
        response
    }
}

} // verus!
