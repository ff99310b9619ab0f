//! Errors of a run.

use vstd::prelude::*;
use vstd::string::StringExecFns;
use crate::protocol::Status;

verus! {

/// Why a command was refused before anything was sent.
#[derive(Debug, Clone, Copy, PartialEq, Eq, Structural)]
pub enum Cause {
    /// The command needs a launched instance.
    NotLaunched,
    /// The instance is already flagged as launched.
    AlreadyLaunched,
    /// A game cannot be created while one is initialised or running.
    CreateWhileRunning,
    /// A game cannot be joined while one is running.
    JoinWhileRunning,
    /// A replay cannot be started while a game is initialised or running.
    ReplayWhileRunning,
    /// Only a game that was played and has ended can be restarted.
    RestartWhileRunning,
    /// Only a game that has ended can be left.
    LeaveWhileRunning,
    /// The coordinator is still at work on an earlier command.
    Busy,
    /// The coordinator does not wait for what was reported to it.
    OutOfOrder,
    /// A failure has ended the run; a new coordinator is needed.
    Aborted,
    /// The game has ended before.
    AlreadyEnded,
}

impl Cause {
    /// The cause in words.
    pub open spec fn text(self) -> Seq<char> {
        match self {
            Cause::NotLaunched =>
                "Game has not been flaged as launched (if an instance is running send a Comands::Launched to connect)"@,
            Cause::AlreadyLaunched => "Game is already launched"@,
            Cause::CreateWhileRunning => "Cannot create a game while one is running"@,
            Cause::JoinWhileRunning => "Cannot join a game while one is running"@,
            Cause::ReplayWhileRunning => "Cannot play a replay while a game is running"@,
            Cause::RestartWhileRunning => "Cannot restart a game while one is running"@,
            Cause::LeaveWhileRunning => "Cannot leave a game while one is running"@,
            Cause::Busy => "An earlier command is still in progress"@,
            Cause::OutOfOrder => "The coordinator does not wait for this"@,
            Cause::Aborted => "The run has been aborted"@,
            Cause::AlreadyEnded => "Game is already ended"@,
        }
    }

    /// The cause in words.
    pub fn message(&self) -> (s: String)
        ensures
            s@ == self.text(),
    {
        match self {
            Cause::NotLaunched => String::from_str(
                "Game has not been flaged as launched (if an instance is running send a Comands::Launched to connect)",
            ),
            Cause::AlreadyLaunched => String::from_str("Game is already launched"),
            Cause::CreateWhileRunning => String::from_str(
                "Cannot create a game while one is running",
            ),
            Cause::JoinWhileRunning => String::from_str("Cannot join a game while one is running"),
            Cause::ReplayWhileRunning => String::from_str(
                "Cannot play a replay while a game is running",
            ),
            Cause::RestartWhileRunning => String::from_str(
                "Cannot restart a game while one is running",
            ),
            Cause::LeaveWhileRunning => String::from_str(
                "Cannot leave a game while one is running",
            ),
            Cause::Busy => String::from_str("An earlier command is still in progress"),
            Cause::OutOfOrder => String::from_str("The coordinator does not wait for this"),
            Cause::Aborted => String::from_str("The run has been aborted"),
            Cause::AlreadyEnded => String::from_str("Game is already ended"),
        }
    }
}

/// What can end a run early.
#[derive(Debug, Clone, PartialEq, Eq)]
pub enum Error {
    /// A command was refused by the phase rules; nothing was sent for it.
    InvalidTransition(Cause),
    /// A handshake was answered with another status than the command expects.
    UnexpectedStatus {
        /// The status the command expects.
        expected: Status,
        /// The status the response carried, if any.
        found: Option<Status>,
    },
    /// The response stream closed while a response was awaited.
    Disconnected,
    /// Sending, receiving, encoding or decoding failed.
    TransportError(String),
    /// The agent's own code failed.
    ExternalFailure(String),
}

impl Error {
    /// The error in words.
    pub open spec fn text(self) -> Seq<char> {
        match self {
            Error::InvalidTransition(cause) => cause.text(),
            Error::UnexpectedStatus { .. } => "Unexpected status in response"@,
            Error::Disconnected => "No response for request"@,
            Error::TransportError(details) => details@,
            Error::ExternalFailure(details) => details@,
        }
    }

    /// The error in words: the cause of a refusal, and the details of a
    /// failure as they were reported.
    pub fn message(&self) -> (s: String)
        ensures
            s@ == self.text(),
    {
        match self {
            Error::InvalidTransition(cause) => cause.message(),
            Error::UnexpectedStatus { .. } => String::from_str("Unexpected status in response"),
            Error::Disconnected => String::from_str("No response for request"),
            Error::TransportError(details) => details.clone(),
            Error::ExternalFailure(details) => details.clone(),
        }
    }

    /// A copy of this error.
    pub fn duplicate(&self) -> (copy: Error)
        ensures
            copy == *self,
    {
        match self {
            Error::InvalidTransition(cause) => Error::InvalidTransition(*cause),
            Error::UnexpectedStatus { expected, found } => Error::UnexpectedStatus {
                expected: *expected,
                found: *found,
            },
            Error::Disconnected => Error::Disconnected,
            Error::TransportError(details) => Error::TransportError(details.clone()),
            Error::ExternalFailure(details) => Error::ExternalFailure(details.clone()),
        }
    }
}

} // verus!
