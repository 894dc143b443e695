use vstd::prelude::*;
use vstd::std_specs::convert::{FromSpecImpl, TryFromSpecImpl};
use crate::enums::{LeafBillboard, TreeType};

verus! {

/// A single-precision number carried by its IEEE 754 bit pattern.
///
/// Nothing in this crate computes with such a value. It is stored, copied
/// and handed back to the host, bit for bit.
#[derive(Clone, Copy, Debug, PartialEq, Eq, Structural)]
pub struct Scalar {
    pub bits: u32,
}

impl Scalar {
    /// The number whose bit pattern is `bits`.
    pub fn from_bits(bits: u32) -> (s: Scalar)
        ensures
            s.bits == bits,
    {
        Scalar { bits }
    }

    /// The bit pattern of the number.
    pub fn to_bits(self) -> (bits: u32)
        ensures
            bits == self.bits,
    {
        self.bits
    }
}

/// A direction or a point, by its three coordinates.
#[derive(Clone, Copy, Debug, PartialEq, Eq, Structural)]
pub struct Vector3 {
    pub x: Scalar,
    pub y: Scalar,
    pub z: Scalar,
}

/// A bias that bends thin branches towards one direction, as light or
/// gravity would.
#[derive(Clone, Copy, Debug, PartialEq, Eq, Structural)]
pub struct BranchForce {
    /// Where the branches are drawn to. The host normalises it.
    pub direction: Vector3,
    /// How strongly they are drawn. Sensible values lie below one.
    pub strength: Scalar,
    /// Branches at least this thick are not affected at all.
    pub radius_cutoff: Scalar,
}

impl Default for BranchForce {
    /// Straight up, with a strength of one twentieth, for branches thinner
    /// than a tenth.
    fn default() -> (force: BranchForce)
        ensures
            force == BranchForce::spec_default(),
    {
        BranchForce {
            direction: Vector3 {
                x: Scalar { bits: 0x0000_0000 },
                y: Scalar { bits: 0x3F80_0000 },
                z: Scalar { bits: 0x0000_0000 },
            },
            strength: Scalar { bits: 0x3D4C_CCCD },
            radius_cutoff: Scalar { bits: 0x3DCC_CCCD },
        }
    }
}

impl BranchForce {
    /// The value of [`BranchForce::default`].
    pub open spec fn spec_default() -> BranchForce {
        BranchForce {
            direction: Vector3 {
                x: Scalar { bits: 0x0000_0000 },
                y: Scalar { bits: 0x3F80_0000 },
                z: Scalar { bits: 0x0000_0000 },
            },
            strength: Scalar { bits: 0x3D4C_CCCD },
            radius_cutoff: Scalar { bits: 0x3DCC_CCCD },
        }
    }
}

/// How many generations of branches grow out of the trunk.
///
/// `Zero` is a bare trunk. More than three generations give branches too
/// small to see, so there is no such value.
#[derive(Clone, Copy, Debug, PartialEq, Eq, Structural)]
pub enum BranchRecursionLevel {
    Zero,
    One,
    Two,
    Three,
}

impl BranchRecursionLevel {
    /// The level as a number, from 0 to 3.
    pub open spec fn spec_index(self) -> nat {
        match self {
            BranchRecursionLevel::Zero => 0,
            BranchRecursionLevel::One => 1,
            BranchRecursionLevel::Two => 2,
            BranchRecursionLevel::Three => 3,
        }
    }

    /// The level as a number, from 0 to 3.
    pub fn index(self) -> (n: usize)
        ensures
            n == self.spec_index(),
            n <= 3,
    {
        match self {
            BranchRecursionLevel::Zero => 0,
            BranchRecursionLevel::One => 1,
            BranchRecursionLevel::Two => 2,
            BranchRecursionLevel::Three => 3,
        }
    }
}

impl TryFrom<u8> for BranchRecursionLevel {
    type Error = ();

    /// The level with the given number. Numbers above three are refused.
    fn try_from(v: u8) -> (r: Result<BranchRecursionLevel, ()>) {
        match v {
            0 => Ok(BranchRecursionLevel::Zero),
            1 => Ok(BranchRecursionLevel::One),
            2 => Ok(BranchRecursionLevel::Two),
            3 => Ok(BranchRecursionLevel::Three),
            _ => Err(()),
        }
    }
}

impl TryFromSpecImpl<u8> for BranchRecursionLevel {
    open spec fn obeys_try_from_spec() -> bool {
        true
    }

    open spec fn try_from_spec(v: u8) -> Result<BranchRecursionLevel, ()> {
        if v == 0 {
            Ok(BranchRecursionLevel::Zero)
        } else if v == 1 {
            Ok(BranchRecursionLevel::One)
        } else if v == 2 {
            Ok(BranchRecursionLevel::Two)
        } else if v == 3 {
            Ok(BranchRecursionLevel::Three)
        } else {
            Err(())
        }
    }
}

impl From<BranchRecursionLevel> for u8 {
    fn from(z: BranchRecursionLevel) -> (n: u8) {
        match z {
            BranchRecursionLevel::Zero => 0,
            BranchRecursionLevel::One => 1,
            BranchRecursionLevel::Two => 2,
            BranchRecursionLevel::Three => 3,
        }
    }
}

impl FromSpecImpl<BranchRecursionLevel> for u8 {
    open spec fn obeys_from_spec() -> bool {
        true
    }

    open spec fn from_spec(z: BranchRecursionLevel) -> u8 {
        z.spec_index() as u8
    }
}

impl From<BranchRecursionLevel> for usize {
    fn from(z: BranchRecursionLevel) -> (n: usize) {
        z.index()
    }
}

impl FromSpecImpl<BranchRecursionLevel> for usize {
    open spec fn obeys_from_spec() -> bool {
        true
    }

    open spec fn from_spec(z: BranchRecursionLevel) -> usize {
        z.spec_index() as usize
    }
}

/// The shape of the trunk and of each generation of branches.
///
/// The arrays are indexed by generation: entry 0 describes the trunk, entry
/// `n` the branches `n` steps away from it.
#[derive(Clone, Copy, Debug, PartialEq, Eq)]
pub struct BranchParams {
    /// How many generations of branches there are.
    pub levels: BranchRecursionLevel,
    /// Angle in degrees between a branch and its parent. Entry 0 is unused:
    /// the trunk stands upright.
    pub angle: [Scalar; 4],
    /// How many branches grow out of one branch of generation 0, 1 and 2.
    pub children: [u8; 3],
    /// The bias that bends the branches.
    pub force: BranchForce,
    /// How crooked the branches of each generation are.
    pub gnarliness: [Scalar; 4],
    /// Length of the branches of each generation.
    pub length: [Scalar; 4],
    /// Radius of the trunk at the ground.
    pub trunk_base_radius: Scalar,
    /// Radius of a branch at its base as a fraction of its parent's radius at
    /// that point. Entry 0 is unused.
    pub radius_factor: [Scalar; 4],
    /// Number of sections along a branch of each generation.
    pub sections: [u8; 4],
    /// Number of segments around a branch of each generation.
    pub segments: [u8; 4],
    /// How far along its parent, as a fraction, the first branch of each
    /// generation may start. Entry 0 is unused.
    pub start: [Scalar; 4],
    /// Fraction of its radius that a branch of each generation loses from
    /// base to tip.
    pub taper: [Scalar; 4],
    /// Twist per section, in radians, of each generation.
    pub twist: [Scalar; 4],
}

impl BranchParams {
    /// The value of [`BranchParams::default`].
    pub open spec fn spec_default() -> BranchParams {
        BranchParams {
            levels: BranchRecursionLevel::Three,
            angle: [
                Scalar { bits: 0x0000_0000 },
                Scalar { bits: 0x421C_0000 },
                Scalar { bits: 0x421C_0000 },
                Scalar { bits: 0x426C_0000 },
            ],
            children: [10u8, 4u8, 3u8],
            force: BranchForce::spec_default(),
            gnarliness: [
                Scalar { bits: 0xBD4C_CCCD },
                Scalar { bits: 0x3E4C_CCCD },
                Scalar { bits: 0x3E23_D70A },
                Scalar { bits: 0x3D4C_CCCD },
            ],
            length: [
                Scalar { bits: 0x4090_0000 },
                Scalar { bits: 0x4039_999A },
                Scalar { bits: 0x3FC0_0000 },
                Scalar { bits: 0x3EE6_6666 },
            ],
            trunk_base_radius: Scalar { bits: 0x3E4C_CCCD },
            radius_factor: [
                Scalar { bits: 0x3F80_0000 },
                Scalar { bits: 0x3F00_0000 },
                Scalar { bits: 0x3F00_0000 },
                Scalar { bits: 0x3F00_0000 },
            ],
            sections: [12u8, 8u8, 6u8, 4u8],
            segments: [8u8, 6u8, 4u8, 3u8],
            start: [
                Scalar { bits: 0x0000_0000 },
                Scalar { bits: 0x3EA3_D70A },
                Scalar { bits: 0x3ECC_CCCD },
                Scalar { bits: 0x0000_0000 },
            ],
            taper: [
                Scalar { bits: 0x3F4C_CCCD },
                Scalar { bits: 0x3F38_51EC },
                Scalar { bits: 0x3F5C_28F6 },
                Scalar { bits: 0x3F33_3333 },
            ],
            twist: [
                Scalar { bits: 0x3DB8_51EC },
                Scalar { bits: 0xBD8F_5C29 },
                Scalar { bits: 0x0000_0000 },
                Scalar { bits: 0x0000_0000 },
            ],
        }
    }
}

impl Default for BranchParams {
    /// A tree of three generations with ten, four and three branches each.
    fn default() -> (params: BranchParams)
        ensures
            params == BranchParams::spec_default(),
    {
        BranchParams {
            levels: BranchRecursionLevel::Three,
            angle: [
                Scalar { bits: 0x0000_0000 },
                Scalar { bits: 0x421C_0000 },
                Scalar { bits: 0x421C_0000 },
                Scalar { bits: 0x426C_0000 },
            ],
            children: [10u8, 4u8, 3u8],
            force: BranchForce::default(),
            gnarliness: [
                Scalar { bits: 0xBD4C_CCCD },
                Scalar { bits: 0x3E4C_CCCD },
                Scalar { bits: 0x3E23_D70A },
                Scalar { bits: 0x3D4C_CCCD },
            ],
            length: [
                Scalar { bits: 0x4090_0000 },
                Scalar { bits: 0x4039_999A },
                Scalar { bits: 0x3FC0_0000 },
                Scalar { bits: 0x3EE6_6666 },
            ],
            trunk_base_radius: Scalar { bits: 0x3E4C_CCCD },
            radius_factor: [
                Scalar { bits: 0x3F80_0000 },
                Scalar { bits: 0x3F00_0000 },
                Scalar { bits: 0x3F00_0000 },
                Scalar { bits: 0x3F00_0000 },
            ],
            sections: [12u8, 8u8, 6u8, 4u8],
            segments: [8u8, 6u8, 4u8, 3u8],
            start: [
                Scalar { bits: 0x0000_0000 },
                Scalar { bits: 0x3EA3_D70A },
                Scalar { bits: 0x3ECC_CCCD },
                Scalar { bits: 0x0000_0000 },
            ],
            taper: [
                Scalar { bits: 0x3F4C_CCCD },
                Scalar { bits: 0x3F38_51EC },
                Scalar { bits: 0x3F5C_28F6 },
                Scalar { bits: 0x3F33_3333 },
            ],
            twist: [
                Scalar { bits: 0x3DB8_51EC },
                Scalar { bits: 0xBD8F_5C29 },
                Scalar { bits: 0x0000_0000 },
                Scalar { bits: 0x0000_0000 },
            ],
        }
    }
}

/// The foliage. Leaves grow only at the tips of the last generation, or on
/// top of the trunk where there are no branches.
#[derive(Clone, Copy, Debug, PartialEq, Eq, Structural)]
pub struct LeafParams {
    /// One quad per cluster, or two crossed ones.
    pub leaf_billboard: LeafBillboard,
    /// Angle in degrees between a leaf and its branch.
    pub angle: Scalar,
    /// Number of leaves.
    pub count: u32,
    /// How far along the branch, as a fraction, the leaves start.
    pub start: Scalar,
    /// Average size of a leaf.
    pub size: Scalar,
    /// Largest relative deviation from the average size. The host treats a
    /// negative value as zero.
    pub size_variance: Scalar,
}

impl LeafParams {
    /// The value of [`LeafParams::default`].
    pub open spec fn spec_default() -> LeafParams {
        LeafParams {
            leaf_billboard: LeafBillboard::Double,
            angle: Scalar { bits: 0x4270_0000 },
            count: 3,
            start: Scalar { bits: 0x3E80_0000 },
            size: Scalar { bits: 0x3E80_0000 },
            size_variance: Scalar { bits: 0x3ECC_CCCD },
        }
    }
}

impl Default for LeafParams {
    /// Crossed quads a quarter of a unit wide, give or take two fifths.
    fn default() -> (params: LeafParams)
        ensures
            params == LeafParams::spec_default(),
    {
        LeafParams {
            leaf_billboard: LeafBillboard::Double,
            angle: Scalar { bits: 0x4270_0000 },
            count: 3,
            start: Scalar { bits: 0x3E80_0000 },
            size: Scalar { bits: 0x3E80_0000 },
            size_variance: Scalar { bits: 0x3ECC_CCCD },
        }
    }
}

/// Everything that determines a tree, apart from the seed of its random
/// perturbations.
#[derive(Clone, Copy, Debug, PartialEq, Eq)]
pub struct TreeSettings {
    pub tree_type: TreeType,
    pub branch: BranchParams,
    pub leaves: LeafParams,
}

/// The settings under the name that hosts with a shared, editable copy use.
pub type TreeMeshSettings = TreeSettings;

impl TreeSettings {
    /// The value of [`TreeSettings::default`].
    pub open spec fn spec_default() -> TreeSettings {
        TreeSettings {
            tree_type: TreeType::Deciduous,
            branch: BranchParams::spec_default(),
            leaves: LeafParams::spec_default(),
        }
    }
}

impl TreeSettings {
    /// Number of generations of branches.
    pub open spec fn spec_levels(&self) -> nat {
        self.branch.levels.spec_index()
    }

    /// Number of generations of branches.
    pub fn levels(&self) -> (n: usize)
        ensures
            n == self.spec_levels(),
            n <= 3,
    {
        self.branch.levels.index()
    }

    /// Number of sections along a branch of generation `level`. A configured
    /// count of zero is read as one, so that every branch has a length.
    pub open spec fn spec_section_count(&self, level: nat) -> u8 {
        if level < 4 && self.branch.sections[level as int] > 0 {
            self.branch.sections[level as int]
        } else {
            1
        }
    }

    /// Number of sections along a branch of generation `level`. A configured
    /// count of zero is read as one.
    pub fn section_count(&self, level: usize) -> (n: u8)
        requires
            level <= 3,
        ensures
            n == self.spec_section_count(level as nat),
            n >= 1,
    {
        let configured: u8 = self.branch.sections[level];
        if configured > 0 {
            configured
        } else {
            1
        }
    }

    /// Number of segments around a branch of generation `level`. A
    /// configured count of zero is read as one, so that every ring has a
    /// vertex to close on.
    pub open spec fn spec_segment_count(&self, level: nat) -> u8 {
        if level < 4 && self.branch.segments[level as int] > 0 {
            self.branch.segments[level as int]
        } else {
            1
        }
    }

    /// Number of segments around a branch of generation `level`. A
    /// configured count of zero is read as one.
    pub fn segment_count(&self, level: usize) -> (n: u8)
        requires
            level <= 3,
        ensures
            n == self.spec_segment_count(level as nat),
            n >= 1,
    {
        let configured: u8 = self.branch.segments[level];
        if configured > 0 {
            configured
        } else {
            1
        }
    }

    /// Number of branches that grow out of one branch at recursion depth
    /// `depth`. Below the last generation there are none.
    pub open spec fn spec_child_count(&self, depth: nat) -> u8 {
        if depth < 3 {
            self.branch.children[depth as int]
        } else {
            0
        }
    }

    /// Number of branches that grow out of one branch at recursion depth
    /// `depth`.
    pub fn child_count(&self, depth: usize) -> (n: u8)
        ensures
            n == self.spec_child_count(depth as nat),
    {
        if depth < 3 {
            self.branch.children[depth]
        } else {
            0
        }
    }
}

impl Default for TreeSettings {
    /// A deciduous tree with the default branches and leaves.
    fn default() -> (settings: TreeSettings)
        ensures
            settings == TreeSettings::spec_default(),
    {
        TreeSettings {
            tree_type: TreeType::Deciduous,
            branch: BranchParams::default(),
            leaves: LeafParams::default(),
        }
    }
}

} // verus!
