use vstd::prelude::*;

verus! {

/// How the foliage at a branch tip is laid out.
#[derive(Clone, Copy, Debug, PartialEq, Eq, Structural)]
pub enum LeafBillboard {
    /// One flat quad.
    Single,
    /// Two quads crossed at a right angle about the branch axis.
    Double,
}

/// The growth habit of a tree.
#[derive(Clone, Copy, Debug, PartialEq, Eq, Structural)]
pub enum TreeType {
    /// The trunk is built from several pieces of decreasing length.
    Deciduous,
    /// A single trunk that tapers to a point, with branches along it.
    Evergreen,
}

impl LeafBillboard {
    /// Number of quads in one leaf cluster.
    pub open spec fn spec_quads(self) -> nat {
        match self {
            LeafBillboard::Single => 1,
            LeafBillboard::Double => 2,
        }
    }

    /// Number of quads in one leaf cluster.
    pub fn quads(self) -> (n: u8)
        ensures
            n == self.spec_quads(),
    {
        match self {
            LeafBillboard::Single => 1,
            LeafBillboard::Double => 2,
        }
    }
}

} // verus!
