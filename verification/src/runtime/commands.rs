//! Commands fed to the coordinator.

use vstd::prelude::*;
use vstd::std_specs::convert::FromSpecImpl;
use vstd::string::StringExecFns;
use crate::text::{decimal, push_decimal};
use crate::hook::AgentHook;
use crate::protocol::{RequestCreateGame, RequestJoinGame, RequestStartReplay};

verus! {

/// Address of a running game instance.
#[derive(Debug, Clone, Copy, PartialEq, Eq)]
pub struct Endpoint {
    /// The four parts of the IPv4 address, first part first.
    pub ip: (u8, u8, u8, u8),
    /// The port the instance listens on.
    pub port: u16,
}

impl Endpoint {
    /// The address of the instance's api, in text: the scheme `ws`, the four
    /// parts of the address with dots between them, the port after a colon,
    /// and the path `/sc2api`.
    pub open spec fn url_text(self) -> Seq<char> {
        "ws://"@ + decimal(self.ip.0 as nat) + "."@ + decimal(self.ip.1 as nat) + "."@ + decimal(
            self.ip.2 as nat,
        ) + "."@ + decimal(self.ip.3 as nat) + ":"@ + decimal(self.port as nat) + "/sc2api"@
    }

    /// The address of the instance's api, in text.
    pub fn url(&self) -> (url: String)
        ensures
            url@ == self.url_text(),
    {
        let mut url = String::from_str("ws://");
        push_decimal(&mut url, self.ip.0 as u64);
        url.append(".");
        push_decimal(&mut url, self.ip.1 as u64);
        url.append(".");
        push_decimal(&mut url, self.ip.2 as u64);
        url.append(".");
        push_decimal(&mut url, self.ip.3 as u64);
        url.append(":");
        push_decimal(&mut url, self.port as u64);
        url.append("/sc2api");
        url
    }
}

/// Commands that can be fed to the coordinator to interact with a running
/// instance.
#[derive(Debug, Clone)]
#[allow(inconsistent_fields)]
pub enum Commands<A: AgentHook> {
    /// Set the game as launched. The coordinator connects to the instance.
    Launched {
        /// Address on which the instance is running.
        socket: Endpoint,
    },
    /// Create a new game from a request.
    CreateGame {
        /// Initial request.
        request: RequestCreateGame,
    },
    /// Join an existing game with an agent.
    JoinGame {
        /// Agent that will be run.
        agent: A,
        /// Request to join the game.
        request: RequestJoinGame,
    },
    /// Start a replay.
    StartReplay {
        /// Agent that will be run.
        agent: A,
        /// Request to start the replay.
        request: RequestStartReplay,
    },
    /// Restart a game.
    RestartGame,
    /// Leave the current game but keep the instance running.
    LeaveGame,
    /// Quit the instance of the game.
    QuitGame,
}

impl<A> From<&Commands<A>> for Commands<A> where A: Clone + AgentHook {
    /// A copy of the command.
    fn from(other: &Commands<A>) -> (command: Commands<A>) {
        other.clone()
    }
}

impl<A> FromSpecImpl<&Commands<A>> for Commands<A> where A: Clone + AgentHook {
    open spec fn obeys_from_spec() -> bool {
        false
    }

    open spec fn from_spec(other: &Commands<A>) -> Commands<A> {
        *other
    }
}

/// A command without what it carries.
#[derive(Debug, Clone, Copy, PartialEq, Eq, Structural)]
pub enum CommandKind {
    Launched,
    CreateGame,
    JoinGame,
    StartReplay,
    RestartGame,
    LeaveGame,
    QuitGame,
}

impl<A: AgentHook> Commands<A> {
    /// The kind of this command.
    pub open spec fn spec_kind(&self) -> CommandKind {
        match self {
            Commands::Launched { .. } => CommandKind::Launched,
            Commands::CreateGame { .. } => CommandKind::CreateGame,
            Commands::JoinGame { .. } => CommandKind::JoinGame,
            Commands::StartReplay { .. } => CommandKind::StartReplay,
            Commands::RestartGame => CommandKind::RestartGame,
            Commands::LeaveGame => CommandKind::LeaveGame,
            Commands::QuitGame => CommandKind::QuitGame,
        }
    }

    /// The kind of this command.
    #[verifier::when_used_as_spec(spec_kind)]
    pub fn kind(&self) -> (k: CommandKind)
        ensures
            k == self.spec_kind(),
    {
        match self {
            Commands::Launched { .. } => CommandKind::Launched,
            Commands::CreateGame { .. } => CommandKind::CreateGame,
            Commands::JoinGame { .. } => CommandKind::JoinGame,
            Commands::StartReplay { .. } => CommandKind::StartReplay,
            Commands::RestartGame => CommandKind::RestartGame,
            Commands::LeaveGame => CommandKind::LeaveGame,
            Commands::QuitGame => CommandKind::QuitGame,
        }
    }
}

} // verus!
