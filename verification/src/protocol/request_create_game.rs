//! Parts of a request to create a game.

use vstd::prelude::*;
use vstd::std_specs::convert::FromSpecImpl;
use crate::protocol::LocalMap;

verus! {

/// The map a game is created on.
#[derive(Debug, Clone, PartialEq, Eq)]
pub enum GameMap {
    /// A map file on the machine that runs the instance.
    LocalMap(LocalMap),
    /// The name of a published map.
    BattlenetMapName(String),
}

impl From<LocalMap> for GameMap {
    /// The choice of a local map.
    fn from(inner: LocalMap) -> (map: GameMap) {
        GameMap::LocalMap(inner)
    }
}

impl FromSpecImpl<LocalMap> for GameMap {
    open spec fn obeys_from_spec() -> bool {
        true
    }

    open spec fn from_spec(inner: LocalMap) -> GameMap {
        GameMap::LocalMap(inner)
    }
}

} // verus!
