//! The static data of the game: units, abilities and upgrades, and the enums
//! that are generated from them.

pub mod enumeration;
pub mod raw;

pub use enumeration::ToEnum;
