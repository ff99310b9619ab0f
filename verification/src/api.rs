//! Ways to plug decision logic into the game loop.

pub mod raw;
