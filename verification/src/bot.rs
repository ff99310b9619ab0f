//! Bots for the synchronous engine.

use vstd::prelude::*;
use crate::protocol::{Observation, Race, Request, ResponseGameInfo};

verus! {

/// What a bot asks of the game it joins.
#[derive(Debug, Clone, Copy, PartialEq, Eq, Structural)]
pub struct BotConfig {
    /// The race the bot plays.
    pub race: Race,
}

/// Something that says how it wants to join a game.
pub trait Configurable {
    /// The configuration to join with.
    fn bot_config(&self) -> BotConfig;
}

/// Decision logic for the synchronous engine, asked once per game loop.
pub trait Bot: Configurable {
    /// Called with the description of the game. Asks for nothing unless the
    /// bot says otherwise.
    fn on_start(&mut self, _info: ResponseGameInfo) -> Option<Request> {
        None
    }

    /// Called with the observation of every game loop.
    fn on_step(&mut self, info: Observation, tick: u32) -> Option<Request>;

    /// Called after the end of the game. Asks for nothing unless the bot
    /// says otherwise.
    fn on_end(&mut self) -> Option<Request> {
        None
    }
}

} // verus!
