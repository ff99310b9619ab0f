//! The runtime: the coordinator of a run, the rules it keeps and the game
//! loop it starts.

pub mod builder;
pub mod channel;
pub mod commands;
pub mod coordinator;
pub mod ingame;
pub mod state;

pub use builder::Builder;
pub use commands::Commands;
pub use coordinator::Coordinator;
