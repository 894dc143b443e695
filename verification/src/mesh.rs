use vstd::prelude::*;

verus! {

/// The width of the triangle indices that the host will store.
#[derive(Clone, Copy, Debug, PartialEq, Eq, Structural)]
pub enum IndexWidth {
    /// 16 bit indices.
    U16,
    /// 32 bit indices.
    U32,
}

impl IndexWidth {
    /// The largest number of vertices that a mesh with such indices may hold:
    /// the largest number that the index type can represent.
    pub open spec fn spec_max_vertices(self) -> nat {
        match self {
            IndexWidth::U16 => 0xFFFF,
            IndexWidth::U32 => 0xFFFF_FFFF,
        }
    }

    /// The largest number of vertices that a mesh with such indices may hold.
    pub fn max_vertices(self) -> (n: u32)
        ensures
            n == self.spec_max_vertices(),
    {
        match self {
            IndexWidth::U16 => 0xFFFF,
            IndexWidth::U32 => 0xFFFF_FFFF,
        }
    }
}

/// The colour that marks the recursion depth of a branch, for debugging.
#[derive(Clone, Copy, Debug, PartialEq, Eq, Structural)]
pub enum DebugColor {
    Red,
    Green,
    Blue,
    Cyan,
}

impl DebugColor {
    /// The colour of depth `depth`: red, green, blue, cyan, and then round
    /// again.
    pub open spec fn of_depth(depth: nat) -> DebugColor {
        if depth % 4 == 0 {
            DebugColor::Red
        } else if depth % 4 == 1 {
            DebugColor::Green
        } else if depth % 4 == 2 {
            DebugColor::Blue
        } else {
            DebugColor::Cyan
        }
    }

    /// The colour of depth `depth`.
    pub fn for_depth(depth: usize) -> (color: DebugColor)
        ensures
            color == DebugColor::of_depth(depth as nat),
    {
        let phase: usize = depth % 4;
        if phase == 0 {
            DebugColor::Red
        } else if phase == 1 {
            DebugColor::Green
        } else if phase == 2 {
            DebugColor::Blue
        } else {
            DebugColor::Cyan
        }
    }

    /// Red, green, blue and alpha of the colour, each 0 or 1.
    pub open spec fn spec_rgba(self) -> Seq<u8> {
        match self {
            DebugColor::Red => seq![1u8, 0u8, 0u8, 1u8],
            DebugColor::Green => seq![0u8, 1u8, 0u8, 1u8],
            DebugColor::Blue => seq![0u8, 0u8, 1u8, 1u8],
            DebugColor::Cyan => seq![0u8, 1u8, 1u8, 1u8],
        }
    }

    /// Red, green, blue and alpha of the colour, each 0 or 1.
    pub fn rgba(self) -> (channels: [u8; 4])
        ensures
            channels@ == self.spec_rgba(),
    {
        let channels: [u8; 4] = match self {
            DebugColor::Red => [1u8, 0u8, 0u8, 1u8],
            DebugColor::Green => [0u8, 1u8, 0u8, 1u8],
            DebugColor::Blue => [0u8, 0u8, 1u8, 1u8],
            DebugColor::Cyan => [0u8, 1u8, 1u8, 1u8],
        };
        assert(channels@ =~= self.spec_rgba());
        channels
    }
}

/// A texture coordinate. U is the fraction `u_numerator / u_denominator`,
/// V is 0 or 1.
#[derive(Clone, Copy, Debug, PartialEq, Eq, Structural)]
pub struct TexCoord {
    pub u_numerator: u8,
    pub u_denominator: u8,
    pub v: u8,
}

/// Where a branch gets its starting point and direction from.
#[derive(Clone, Copy, Debug, PartialEq, Eq, Structural)]
pub enum Placement {
    /// It is the first piece of the trunk and stands at the origin.
    Root,
    /// It carries on where the branch with index `of` ended.
    Continuation { of: u32 },
    /// It is child number `ordinal` of the `count` children that grow out of
    /// the side of the branch with index `parent`.
    Child { parent: u32, ordinal: u8, count: u8 },
}

/// What one call of the recursion works on: one branch that is about to be
/// built.
#[derive(Clone, Copy, Debug, PartialEq, Eq, Structural)]
pub struct BranchGenState {
    /// Which entry of the per-generation settings describes the branch.
    pub level: usize,
    /// How many calls deep the recursion is. The trunk's first piece has 0.
    pub recursion_count: usize,
    /// Number of sections along the branch. It has one ring more.
    pub sections: u8,
    /// Number of segments around the branch. Each ring has one vertex more.
    pub segments: u8,
    /// Where the branch starts.
    pub placement: Placement,
}

/// One ring of a branch, as the branches that grow out of it see it.
#[derive(Clone, Copy, Debug, PartialEq, Eq, Structural)]
pub struct SectionData {
    /// Index of the branch.
    pub branch: u32,
    /// Number of the ring along the branch, from 0.
    pub ring: u8,
    /// Whether the radius of this ring is forced down to the smallest radius
    /// that the host works with.
    pub tip: bool,
}

/// One vertex of the branch mesh.
///
/// Position and normal are those of step `step` out of the branch's segment
/// count around ring `ring` of branch `branch`.
#[derive(Clone, Copy, Debug, PartialEq, Eq, Structural)]
pub struct RingVertex {
    pub branch: u32,
    pub ring: u8,
    pub step: u8,
    pub uv: TexCoord,
    pub color: DebugColor,
}

/// One vertex of the leaf mesh: corner `corner` of quad `quad` of the cluster
/// at the tip of branch `site`.
///
/// Quad 0 faces the forward axis of the branch tip, quad 1 is turned by a
/// right angle about the branch axis. Seen from the front, the corners run
/// from top left over bottom left and bottom right to top right.
#[derive(Clone, Copy, Debug, PartialEq, Eq, Structural)]
pub struct LeafVertex {
    pub site: u32,
    pub quad: u8,
    pub corner: u8,
    pub uv: TexCoord,
}

/// The vertices of a mesh and the triangles between them, three indices
/// each.
#[derive(Debug)]
pub struct MeshBuffers<V> {
    pub vertices: Vec<V>,
    pub indices: Vec<u32>,
}

impl<V> MeshBuffers<V> {
    /// A mesh without vertices.
    pub fn new() -> (mesh: MeshBuffers<V>)
        ensures
            mesh.vertices@.len() == 0,
            mesh.indices@.len() == 0,
    {
        MeshBuffers { vertices: Vec::new(), indices: Vec::new() }
    }

    /// Every index refers to a vertex of the mesh.
    pub open spec fn indices_in_range(&self) -> bool {
        forall|k: int| 0 <= k < self.indices@.len() ==> (#[trigger] self.indices@[k]) < self.vertices@.len()
    }
}

/// The indices as 16 bit numbers, where all of them are that small.
pub fn narrow_indices(indices: &Vec<u32>) -> (narrow: Option<Vec<u16>>)
    ensures
        narrow is Some <==> forall|k: int| 0 <= k < indices@.len() ==> indices@[k] <= u16::MAX,
        narrow matches Some(short) ==> {
            &&& short@.len() == indices@.len()
            &&& forall|k: int| 0 <= k < indices@.len() ==> short@[k] == indices@[k]
        },
{
    let mut short: Vec<u16> = Vec::new();
    let mut i: usize = 0;
    while i < indices.len()
        invariant
            i <= indices@.len(),
            short@.len() == i,
            forall|k: int| 0 <= k < i ==> indices@[k] <= u16::MAX && short@[k] == indices@[k],
        decreases indices@.len() - i,
    {
        let index: u32 = indices[i];
        if index > 0xFFFF {
            return None;
        }
        short.push(index as u16);
        i = i + 1;
    }
    Some(short)
}

/// What follows once a branch's own rings are built.
#[derive(Clone, Copy, Debug, PartialEq, Eq, Structural)]
pub enum BranchOutcome {
    /// One more piece of trunk grows out of the end of this one.
    Continue,
    /// The branch ends in a cluster of `quads` leaf quads.
    Leaves { quads: u8 },
    /// `count` branches of the next generation grow out of its side.
    Children { count: u8 },
}

/// A branch that has been built: what it was built from, and where its
/// vertices lie in the two meshes.
#[derive(Clone, Copy, Debug, PartialEq, Eq, Structural)]
pub struct BranchRecord {
    pub state: BranchGenState,
    /// Index of the branch's first vertex in the branch mesh.
    pub first_vertex: u32,
    /// Number of vertices in the leaf mesh before this branch was built.
    /// The leaves of this branch, if it has any, start there.
    pub first_leaf_vertex: u32,
    /// Whether the last ring is a tip of the smallest radius.
    pub pointed: bool,
    pub outcome: BranchOutcome,
}

} // verus!
