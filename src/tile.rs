//! The kinds of floor tile drawn under a building.
use vstd::prelude::*;

verus! {

/// The kind of a floor tile; each has its own material.
#[derive(Clone, Copy, Debug, PartialEq, Eq, Structural)]
pub enum TileVariant {
    Blank,
    Input,
    Output,
    Misc,
}

impl TileVariant {
    /// Position of the variant in the table of tile materials.
    pub open spec fn index_spec(self) -> nat {
        match self {
            TileVariant::Blank => 0,
            TileVariant::Input => 1,
            TileVariant::Output => 2,
            TileVariant::Misc => 3,
        }
    }

    /// Position of the variant in the table of tile materials.
    pub fn material_index(self) -> (r: usize)
        ensures
            r == self.index_spec(),
    {
        match self {
            TileVariant::Blank => 0,
            TileVariant::Input => 1,
            TileVariant::Output => 2,
            TileVariant::Misc => 3,
        }
    }
}

} // verus!
