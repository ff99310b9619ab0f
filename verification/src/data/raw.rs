//! The entries of the data file.

use vstd::prelude::*;

verus! {

#[derive(Debug, Clone, Copy, PartialEq, Eq, Structural)]
pub enum RawRace {
    Protoss,
    Zerg,
    Terran,
}

#[derive(Debug, Clone, Copy, PartialEq, Eq, Structural)]
pub enum RawAttributes {
    Armored,
    Mechanical,
    Massive,
    Structure,
    Light,
    Biological,
    Psionic,
    Heroic,
    Summoned,
}

/// What an ability is aimed at, and what it brings about.
#[derive(Debug, Clone, PartialEq, Eq)]
#[allow(inconsistent_fields)]
pub enum RawTarget {
    NoTarget,
    Point,
    Unit,
    PointOrUnit,
    Research { upgrade: usize, upgrade_name: String },
    Build { produces: usize, produces_name: Option<String> },
    BuildOnUnit { produces: usize, produces_name: String },
    BuildInstant { produces: usize, produces_name: Option<String> },
    Morph { produces: usize, produces_name: String },
    Train { produces: usize, produces_name: Option<String> },
    MorphPlace { produces: usize, produces_name: String },
    TrainPlace { produces: usize, produces_name: String },
}

#[derive(Debug, Clone, Copy, PartialEq, Eq, Structural)]
pub enum RawTargetType {
    Air,
    Ground,
    Any,
}

/// An ability of a unit, by its number.
#[derive(Debug, Clone, Copy, PartialEq, Eq, Structural)]
pub struct UnitRawAbility {
    pub ability: usize,
}

/// What a unit takes up as cargo, and what it can carry.
#[derive(Debug, Clone, Copy, PartialEq, Eq, Structural)]
pub struct Cargo {
    pub cargo_size: usize,
    pub cargo_capacity: usize,
}

} // verus!
