//! Parts of a request to start a replay.

use vstd::prelude::*;

verus! {

/// Where the replay comes from.
#[derive(Debug, Clone, PartialEq, Eq)]
pub enum Replay {
    /// Path of a replay file on the machine that runs the instance.
    ReplayPath(String),
    /// The replay file's contents.
    ReplayData(Vec<u8>),
}

} // verus!
