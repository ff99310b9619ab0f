//! Lifecycle phase flags and the rules on which command is legal when.

use vstd::prelude::*;
use crate::runtime::commands::{CommandKind, Commands};
use crate::error::{Cause, Error};
use crate::hook::AgentHook;

verus! {

/// Bit of the `launched` phase.
pub const LAUNCHED: u8 = 1;

/// Bit of the `initgame` phase.
pub const INITGAME: u8 = 2;

/// Bit of the `inreplay` phase.
pub const INREPLAY: u8 = 4;

/// Bit of the `ingame` phase.
pub const INGAME: u8 = 8;

/// Bit of the `ended` phase.
pub const ENDED: u8 = 16;

/// Which lifecycle phases are active. The phases overlap: during a transition
/// more than one of them holds.
#[derive(Debug, Clone, Copy, PartialEq, Eq, Structural)]
pub struct PhaseFlags {
    pub launched: bool,
    pub initializing: bool,
    pub in_replay: bool,
    pub in_game: bool,
    pub ended: bool,
}

impl PhaseFlags {
    /// No phase is active.
    pub open spec fn none() -> PhaseFlags {
        PhaseFlags {
            launched: false,
            initializing: false,
            in_replay: false,
            in_game: false,
            ended: false,
        }
    }

    /// The phases that a set of flag bits stands for.
    pub open spec fn of_bits(bits: u8) -> PhaseFlags {
        PhaseFlags {
            launched: bits & LAUNCHED != 0,
            initializing: bits & INITGAME != 0,
            in_replay: bits & INREPLAY != 0,
            in_game: bits & INGAME != 0,
            ended: bits & ENDED != 0,
        }
    }
}

/// The table of legal commands: whether a command may be issued while the
/// given phases are active.
pub open spec fn legal(flags: PhaseFlags, kind: CommandKind) -> bool {
    match kind {
        CommandKind::Launched => !flags.launched,
        CommandKind::CreateGame => flags.launched && !flags.initializing && !flags.in_game
            && !flags.in_replay,
        CommandKind::JoinGame => flags.launched && !flags.in_game && !flags.in_replay,
        CommandKind::StartReplay => flags.launched && !flags.initializing && !flags.in_game,
        CommandKind::RestartGame => flags.launched && flags.ended && flags.in_game,
        CommandKind::LeaveGame => flags.launched && flags.ended,
        CommandKind::QuitGame => flags.launched,
    }
}

/// Why a command that is not legal is refused. A missing launch is named
/// before anything else.
pub open spec fn rejection(flags: PhaseFlags, kind: CommandKind) -> Cause {
    match kind {
        CommandKind::Launched => Cause::AlreadyLaunched,
        _ => if !flags.launched {
            Cause::NotLaunched
        } else {
            match kind {
                CommandKind::CreateGame => Cause::CreateWhileRunning,
                CommandKind::JoinGame => Cause::JoinWhileRunning,
                CommandKind::StartReplay => Cause::ReplayWhileRunning,
                CommandKind::RestartGame => Cause::RestartWhileRunning,
                _ => Cause::LeaveWhileRunning,
            }
        },
    }
}

/// The verdict on a command: accepted where the table allows it, refused with
/// its cause where not.
pub open spec fn verdict(flags: PhaseFlags, kind: CommandKind) -> Result<(), Error> {
    if legal(flags, kind) {
        Ok(())
    } else {
        Err(Error::InvalidTransition(rejection(flags, kind)))
    }
}

/// Setting one flag bit sets its phase and leaves the other four as they
/// were.
proof fn lemma_set_bit(bits: u8)
    ensures
        PhaseFlags::of_bits(bits | LAUNCHED) == (PhaseFlags {
            launched: true,
            ..PhaseFlags::of_bits(bits)
        }),
        PhaseFlags::of_bits(bits | INITGAME) == (PhaseFlags {
            initializing: true,
            ..PhaseFlags::of_bits(bits)
        }),
        PhaseFlags::of_bits(bits | INREPLAY) == (PhaseFlags {
            in_replay: true,
            ..PhaseFlags::of_bits(bits)
        }),
        PhaseFlags::of_bits(bits | INGAME) == (PhaseFlags {
            in_game: true,
            ..PhaseFlags::of_bits(bits)
        }),
        PhaseFlags::of_bits(bits | ENDED) == (PhaseFlags { ended: true, ..PhaseFlags::of_bits(bits) }),
        PhaseFlags::of_bits(0) == PhaseFlags::none(),
{
    assert((bits | 1) & 1 != 0 && ((bits | 1) & 2 != 0) == (bits & 2 != 0) && ((bits | 1) & 4 != 0)
        == (bits & 4 != 0) && ((bits | 1) & 8 != 0) == (bits & 8 != 0) && ((bits | 1) & 16 != 0)
        == (bits & 16 != 0)) by (bit_vector);
    assert((bits | 2) & 2 != 0 && ((bits | 2) & 1 != 0) == (bits & 1 != 0) && ((bits | 2) & 4 != 0)
        == (bits & 4 != 0) && ((bits | 2) & 8 != 0) == (bits & 8 != 0) && ((bits | 2) & 16 != 0)
        == (bits & 16 != 0)) by (bit_vector);
    assert((bits | 4) & 4 != 0 && ((bits | 4) & 1 != 0) == (bits & 1 != 0) && ((bits | 4) & 2 != 0)
        == (bits & 2 != 0) && ((bits | 4) & 8 != 0) == (bits & 8 != 0) && ((bits | 4) & 16 != 0)
        == (bits & 16 != 0)) by (bit_vector);
    assert((bits | 8) & 8 != 0 && ((bits | 8) & 1 != 0) == (bits & 1 != 0) && ((bits | 8) & 2 != 0)
        == (bits & 2 != 0) && ((bits | 8) & 4 != 0) == (bits & 4 != 0) && ((bits | 8) & 16 != 0)
        == (bits & 16 != 0)) by (bit_vector);
    assert((bits | 16) & 16 != 0 && ((bits | 16) & 1 != 0) == (bits & 1 != 0) && ((bits | 16) & 2
        != 0) == (bits & 2 != 0) && ((bits | 16) & 4 != 0) == (bits & 4 != 0) && ((bits | 16) & 8
        != 0) == (bits & 8 != 0)) by (bit_vector);
    assert(0u8 & 1 == 0 && 0u8 & 2 == 0 && 0u8 & 4 == 0 && 0u8 & 8 == 0 && 0u8 & 16 == 0)
        by (bit_vector);
}

/// The lifecycle phases of one connection, kept as a set of flag bits.
#[derive(Debug)]
pub struct StateMachine {
    bits: u8,
}

impl View for StateMachine {
    type V = PhaseFlags;

    open spec fn view(&self) -> PhaseFlags {
        PhaseFlags::of_bits(self.spec_bits())
    }
}

impl Default for StateMachine {
    fn default() -> (sm: Self)
        ensures
            sm.spec_bits() == 0,
            sm@ == PhaseFlags::none(),
    {
        StateMachine::new()
    }
}

impl StateMachine {
    /// The flag bits.
    pub closed spec fn spec_bits(&self) -> u8 {
        self.bits
    }

    /// A state machine with no phase active.
    pub fn new() -> (sm: Self)
        ensures
            sm.spec_bits() == 0,
            sm@ == PhaseFlags::none(),
    {
        proof {
            lemma_set_bit(0);
        }
        StateMachine { bits: 0 }
    }

    /// The flag bits.
    #[verifier::when_used_as_spec(spec_bits)]
    pub fn bits(&self) -> (bits: u8)
        ensures
            bits == self.spec_bits(),
    {
        self.bits
    }

    /// The active phases.
    pub fn flags(&self) -> (flags: PhaseFlags)
        ensures
            flags == self@,
    {
        PhaseFlags {
            launched: self.is_launched(),
            initializing: self.is_initgame(),
            in_replay: self.is_inreplay(),
            in_game: self.is_ingame(),
            ended: self.is_ended(),
        }
    }

    /// Clears every phase at once.
    pub fn reset(&mut self)
        ensures
            final(self).spec_bits() == 0,
            final(self)@ == PhaseFlags::none(),
    {
        proof {
            lemma_set_bit(0);
        }
        self.bits = 0;
    }

    /// Whether the instance is flagged as launched.
    pub fn is_launched(&self) -> (b: bool)
        ensures
            b == self@.launched,
    {
        self.bits & LAUNCHED != 0
    }

    /// Flags the instance as launched.
    pub fn launched(&mut self)
        ensures
            final(self)@ == (PhaseFlags { launched: true, ..old(self)@ }),
            final(self).spec_bits() == old(self).spec_bits() | LAUNCHED,
    {
        proof {
            lemma_set_bit(self.bits);
        }
        self.bits = self.bits | LAUNCHED;
    }

    /// Whether a game is being initialised.
    pub fn is_initgame(&self) -> (b: bool)
        ensures
            b == self@.initializing,
    {
        self.bits & INITGAME != 0
    }

    /// Flags a game as being initialised.
    pub fn initgame(&mut self)
        ensures
            final(self)@ == (PhaseFlags { initializing: true, ..old(self)@ }),
            final(self).spec_bits() == old(self).spec_bits() | INITGAME,
    {
        proof {
            lemma_set_bit(self.bits);
        }
        self.bits = self.bits | INITGAME;
    }

    /// Whether a replay is being played.
    pub fn is_inreplay(&self) -> (b: bool)
        ensures
            b == self@.in_replay,
    {
        self.bits & INREPLAY != 0
    }

    /// Flags a replay as being played.
    pub fn inreplay(&mut self)
        ensures
            final(self)@ == (PhaseFlags { in_replay: true, ..old(self)@ }),
            final(self).spec_bits() == old(self).spec_bits() | INREPLAY,
    {
        proof {
            lemma_set_bit(self.bits);
        }
        self.bits = self.bits | INREPLAY;
    }

    /// Whether a game is being played.
    pub fn is_ingame(&self) -> (b: bool)
        ensures
            b == self@.in_game,
    {
        self.bits & INGAME != 0
    }

    /// Flags a game as being played.
    pub fn ingame(&mut self)
        ensures
            final(self)@ == (PhaseFlags { in_game: true, ..old(self)@ }),
            final(self).spec_bits() == old(self).spec_bits() | INGAME,
    {
        proof {
            lemma_set_bit(self.bits);
        }
        self.bits = self.bits | INGAME;
    }

    /// Whether the game or replay has ended.
    pub fn is_ended(&self) -> (b: bool)
        ensures
            b == self@.ended,
    {
        self.bits & ENDED != 0
    }

    /// Flags the game or replay as ended.
    pub fn ended(&mut self)
        ensures
            final(self)@ == (PhaseFlags { ended: true, ..old(self)@ }),
            final(self).spec_bits() == old(self).spec_bits() | ENDED,
    {
        proof {
            lemma_set_bit(self.bits);
        }
        self.bits = self.bits | ENDED;
    }

    /// Checks a command against the active phases. Nothing is changed and
    /// nothing is sent: the command is accepted exactly where the table of
    /// legal commands allows it, and refused with its cause where not.
    pub fn validate<A: AgentHook>(&self, command: &Commands<A>) -> (r: Result<(), Error>)
        ensures
            r == verdict(self@, command.spec_kind()),
            r is Ok <==> legal(self@, command.spec_kind()),
    {
        check(self.flags(), command.kind())
    }
}

/// Checks a kind of command against a set of phases.
pub fn check(flags: PhaseFlags, kind: CommandKind) -> (r: Result<(), Error>)
    ensures
        r == verdict(flags, kind),
        r is Ok <==> legal(flags, kind),
{
    match kind {
        CommandKind::Launched => {
            if flags.launched {
                return Err(Error::InvalidTransition(Cause::AlreadyLaunched));
            }
        },
        CommandKind::CreateGame => {
            if !flags.launched {
                return Err(Error::InvalidTransition(Cause::NotLaunched));
            }
            if flags.in_game || flags.in_replay || flags.initializing {
                return Err(Error::InvalidTransition(Cause::CreateWhileRunning));
            }
        },
        CommandKind::JoinGame => {
            if !flags.launched {
                return Err(Error::InvalidTransition(Cause::NotLaunched));
            }
            if flags.in_game || flags.in_replay {
                return Err(Error::InvalidTransition(Cause::JoinWhileRunning));
            }
        },
        CommandKind::StartReplay => {
            if !flags.launched {
                return Err(Error::InvalidTransition(Cause::NotLaunched));
            }
            if flags.initializing || flags.in_game {
                return Err(Error::InvalidTransition(Cause::ReplayWhileRunning));
            }
        },
        CommandKind::RestartGame => {
            if !flags.launched {
                return Err(Error::InvalidTransition(Cause::NotLaunched));
            }
            if !flags.ended || !flags.in_game {
                return Err(Error::InvalidTransition(Cause::RestartWhileRunning));
            }
        },
        CommandKind::LeaveGame => {
            if !flags.launched {
                return Err(Error::InvalidTransition(Cause::NotLaunched));
            }
            if !flags.ended {
                return Err(Error::InvalidTransition(Cause::LeaveWhileRunning));
            }
        },
        CommandKind::QuitGame => {
            if !flags.launched {
                return Err(Error::InvalidTransition(Cause::NotLaunched));
            }
        },
    }
    Ok(())
}

} // verus!
