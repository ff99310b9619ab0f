//! Parts of a request to join a game.

use vstd::prelude::*;
use crate::protocol::Race;

verus! {

/// How the client takes part in the game.
#[derive(Debug, Clone, Copy, PartialEq, Eq, Structural)]
pub enum Participation {
    /// As a player of the given race.
    Race(Race),
    /// As an observer of the given player.
    ObservedPlayerId(u32),
}

} // verus!
