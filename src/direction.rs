//! The six directions of the isometric grid, and turning between them.
use vstd::prelude::*;

verus! {

/// One of the six directions of the grid, listed in clockwise order. `PosA`
/// points along the grid's first axis, `NegA` against it; the other axes lie
/// at a third of a turn from it.
#[derive(Clone, Copy, Debug, PartialEq, Eq, Structural)]
pub enum IsoDirection {
    PosA,
    NegC,
    PosB,
    NegA,
    PosC,
    NegB,
}

impl IsoDirection {
    /// Position of the direction in clockwise order, starting from `PosA`.
    pub open spec fn index(self) -> int {
        match self {
            IsoDirection::PosA => 0,
            IsoDirection::NegC => 1,
            IsoDirection::PosB => 2,
            IsoDirection::NegA => 3,
            IsoDirection::PosC => 4,
            IsoDirection::NegB => 5,
        }
    }

    /// The direction at position `i` (taken modulo six) in clockwise order.
    pub open spec fn from_index(i: int) -> IsoDirection {
        let k = i % 6;
        if k == 0 {
            IsoDirection::PosA
        } else if k == 1 {
            IsoDirection::NegC
        } else if k == 2 {
            IsoDirection::PosB
        } else if k == 3 {
            IsoDirection::NegA
        } else if k == 4 {
            IsoDirection::PosC
        } else {
            IsoDirection::NegB
        }
    }

    /// The direction `steps` sixths of a turn clockwise from this one
    /// (counter-clockwise for a negative `steps`).
    pub open spec fn turned(self, steps: int) -> IsoDirection {
        IsoDirection::from_index(self.index() + steps)
    }

    /// The next direction clockwise, a sixth of a turn on.
    pub fn clockwise(self) -> (r: IsoDirection)
        ensures
            r == self.turned(1),
    {
        match self {
            IsoDirection::PosA => IsoDirection::NegC,
            IsoDirection::NegC => IsoDirection::PosB,
            IsoDirection::PosB => IsoDirection::NegA,
            IsoDirection::NegA => IsoDirection::PosC,
            IsoDirection::PosC => IsoDirection::NegB,
            IsoDirection::NegB => IsoDirection::PosA,
        }
    }

    /// The next direction counter-clockwise, a sixth of a turn back.
    pub fn counter_clockwise(self) -> (r: IsoDirection)
        ensures
            r == self.turned(-1),
    {
        match self {
            IsoDirection::PosA => IsoDirection::NegB,
            IsoDirection::NegC => IsoDirection::PosA,
            IsoDirection::PosB => IsoDirection::NegC,
            IsoDirection::NegA => IsoDirection::PosB,
            IsoDirection::PosC => IsoDirection::NegA,
            IsoDirection::NegB => IsoDirection::PosC,
        }
    }
}

impl Default for IsoDirection {
    fn default() -> (r: IsoDirection)
        ensures
            r == IsoDirection::PosA,
    {
        IsoDirection::PosA
    }
}

/// Turning is a cyclic group of order six: six clockwise turns come back to
/// the starting direction, and a clockwise turn followed by a counter-clockwise
/// one (or the reverse) changes nothing.
pub proof fn lemma_turning_has_order_six(d: IsoDirection)
    ensures
        d.turned(1).turned(1).turned(1).turned(1).turned(1).turned(1) == d,
        d.turned(1).turned(-1) == d,
        d.turned(-1).turned(1) == d,
{
}

} // verus!
