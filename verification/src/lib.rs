//! Client-side control of a remote real-time simulation over a request/response
//! protocol with server-driven lifecycle phases.

pub mod agent;
pub mod api;
pub mod bot;
pub mod data;
pub mod default;
pub mod definitions;
pub mod derive;
pub mod engine;
pub mod error;
pub mod hook;
pub mod prelude;
pub mod producer;
pub mod protocol;
pub mod result;
pub mod runtime;
pub mod state_machine;
pub mod text;
