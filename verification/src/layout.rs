//! Where the vertices and triangles of each branch lie in the two meshes.

use vstd::prelude::*;
use crate::mesh::{
    BranchGenState, BranchOutcome, BranchRecord, DebugColor, LeafVertex, RingVertex, SectionData,
    TexCoord,
};

verus! {

/// Number of vertices in one ring of the branch: one per segment, and one
/// more that closes the ring.
pub open spec fn ring_stride(state: BranchGenState) -> nat {
    state.segments as nat + 1
}

/// Number of rings of the branch: one per section, and one more at its end.
pub open spec fn ring_count(state: BranchGenState) -> nat {
    state.sections as nat + 1
}

/// Number of vertices of the branch.
pub open spec fn own_vertices(state: BranchGenState) -> nat {
    ring_count(state) * ring_stride(state)
}

/// Number of triangle indices of the branch: two triangles for each cell
/// between neighbouring rings and neighbouring segments.
pub open spec fn own_indices(state: BranchGenState) -> nat {
    6 * (state.sections as nat * state.segments as nat)
}

/// The vertex at place `j` of ring `ring` of the branch with index `id`.
///
/// Places 0 to `segments - 1` go once round the ring. The last place,
/// `segments`, lies on step 0 again: it has the position and normal of the
/// first vertex and differs from it in U alone, which is 1 instead of 0. V
/// alternates from ring to ring.
pub open spec fn vertex_at(state: BranchGenState, id: nat, ring: int, j: int) -> RingVertex {
    RingVertex {
        branch: id as u32,
        ring: ring as u8,
        step: if j == state.segments { 0u8 } else { j as u8 },
        uv: TexCoord {
            u_numerator: j as u8,
            u_denominator: state.segments,
            v: (ring % 2) as u8,
        },
        color: DebugColor::of_depth(state.recursion_count as nat),
    }
}

/// The `k`-th vertex of the branch: rings follow each other, each with its
/// places in order.
pub open spec fn ring_vertex(state: BranchGenState, id: nat, k: int) -> RingVertex {
    vertex_at(state, id, k / (ring_stride(state) as int), k % (ring_stride(state) as int))
}

/// All vertices of the branch with index `id`.
pub open spec fn branch_vertices(state: BranchGenState, id: nat) -> Seq<RingVertex> {
    Seq::new(own_vertices(state), |k: int| ring_vertex(state, id, k))
}

/// The rings of the branch with index `id`, as its children see them. The
/// last ring is a tip where the branch is pointed.
pub open spec fn branch_sections(state: BranchGenState, id: nat, pointed: bool) -> Seq<SectionData> {
    Seq::new(
        ring_count(state),
        |r: int| SectionData { branch: id as u32, ring: r as u8, tip: pointed && r == state.sections },
    )
}

/// Corner `corner` of the two triangles that cover the cell between rings
/// `i` and `i + 1` and places `j` and `j + 1`, for a branch whose first vertex
/// has index `first`.
///
/// With `a` and `b` the two vertices on ring `i` and `c` and `d` those above
/// them on ring `i + 1`, the triangles are `a c b` and `b c d`.
pub open spec fn cell_corner(state: BranchGenState, first: nat, i: int, j: int, corner: int) -> int {
    let stride = ring_stride(state) as int;
    let a = first + i * stride + j;
    let b = a + 1;
    let c = a + stride;
    let d = b + stride;
    if corner == 0 {
        a
    } else if corner == 1 {
        c
    } else if corner == 2 {
        b
    } else if corner == 3 {
        b
    } else if corner == 4 {
        c
    } else {
        d
    }
}

/// The `k`-th triangle index of the branch: cells follow each other ring by
/// ring, each with its six corners.
pub open spec fn triangle_index(state: BranchGenState, first: nat, k: int) -> u32 {
    let cell = k / 6;
    cell_corner(
        state,
        first,
        cell / (state.segments as int),
        cell % (state.segments as int),
        k % 6,
    ) as u32
}

/// All triangle indices of a branch whose first vertex has index `first`.
pub open spec fn branch_indices(state: BranchGenState, first: nat) -> Seq<u32> {
    Seq::new(own_indices(state), |k: int| triangle_index(state, first, k))
}

/// Number of leaf quads at the tip of a branch with this outcome.
pub open spec fn leaf_quads(outcome: BranchOutcome) -> nat {
    match outcome {
        BranchOutcome::Leaves { quads } => quads as nat,
        _ => 0,
    }
}

/// Texture coordinate of corner `corner` of a leaf quad: the unit square,
/// from top left over bottom left and bottom right to top right.
pub open spec fn corner_uv(corner: int) -> TexCoord {
    TexCoord {
        u_numerator: if corner == 2 || corner == 3 { 1u8 } else { 0u8 },
        u_denominator: 1u8,
        v: if corner == 0 || corner == 3 { 1u8 } else { 0u8 },
    }
}

/// The `k`-th vertex of the leaf cluster at the tip of branch `id`.
pub open spec fn leaf_vertex(id: nat, k: int) -> LeafVertex {
    LeafVertex { site: id as u32, quad: (k / 4) as u8, corner: (k % 4) as u8, uv: corner_uv(k % 4) }
}

/// All vertices of the leaf cluster of a branch with this outcome.
pub open spec fn site_vertices(outcome: BranchOutcome, id: nat) -> Seq<LeafVertex> {
    Seq::new(4 * leaf_quads(outcome), |k: int| leaf_vertex(id, k))
}

/// Which corner of its quad the `k`-th index of a quad's two triangles
/// names: `0 1 2` and `0 2 3`.
pub open spec fn quad_corner(k: int) -> int {
    if k == 0 || k == 3 {
        0
    } else if k == 1 {
        1
    } else if k == 2 || k == 4 {
        2
    } else {
        3
    }
}

/// The `k`-th triangle index of a leaf cluster whose first vertex has index
/// `first`.
pub open spec fn leaf_index(first: nat, k: int) -> u32 {
    (first + 4 * (k / 6) + quad_corner(k % 6)) as u32
}

/// All triangle indices of the leaf cluster of a branch with this outcome.
pub open spec fn site_indices(outcome: BranchOutcome, first: nat) -> Seq<u32> {
    Seq::new(6 * leaf_quads(outcome), |k: int| leaf_index(first, k))
}

/// Number of branch vertices of all the records together.
pub open spec fn vertex_total(records: Seq<BranchRecord>) -> nat
    decreases records.len(),
{
    if records.len() == 0 {
        0
    } else {
        vertex_total(records.drop_last()) + own_vertices(records.last().state)
    }
}

/// Number of leaf vertices of all the records together.
pub open spec fn leaf_vertex_total(records: Seq<BranchRecord>) -> nat
    decreases records.len(),
{
    if records.len() == 0 {
        0
    } else {
        leaf_vertex_total(records.drop_last()) + 4 * leaf_quads(records.last().outcome)
    }
}

/// The vertices of the branch mesh: those of each record in turn. The index
/// of a branch is the place of its record.
pub open spec fn mesh_vertices(records: Seq<BranchRecord>) -> Seq<RingVertex>
    decreases records.len(),
{
    if records.len() == 0 {
        Seq::empty()
    } else {
        mesh_vertices(records.drop_last()) + branch_vertices(
            records.last().state,
            (records.len() - 1) as nat,
        )
    }
}

/// The triangle indices of the branch mesh: those of each record in turn.
pub open spec fn mesh_indices(records: Seq<BranchRecord>) -> Seq<u32>
    decreases records.len(),
{
    if records.len() == 0 {
        Seq::empty()
    } else {
        mesh_indices(records.drop_last()) + branch_indices(
            records.last().state,
            records.last().first_vertex as nat,
        )
    }
}

/// The vertices of the leaf mesh: the cluster of each record that has one,
/// in turn.
pub open spec fn leaf_vertices(records: Seq<BranchRecord>) -> Seq<LeafVertex>
    decreases records.len(),
{
    if records.len() == 0 {
        Seq::empty()
    } else {
        leaf_vertices(records.drop_last()) + site_vertices(
            records.last().outcome,
            (records.len() - 1) as nat,
        )
    }
}

/// The triangle indices of the leaf mesh.
pub open spec fn leaf_indices(records: Seq<BranchRecord>) -> Seq<u32>
    decreases records.len(),
{
    if records.len() == 0 {
        Seq::empty()
    } else {
        leaf_indices(records.drop_last()) + site_indices(
            records.last().outcome,
            records.last().first_leaf_vertex as nat,
        )
    }
}

/// Every record starts where the records before it end, in both meshes.
pub open spec fn offsets_consistent(records: Seq<BranchRecord>) -> bool {
    forall|i: int|
        0 <= i < records.len() ==> {
            &&& (#[trigger] records[i]).first_vertex == vertex_total(records.take(i))
            &&& records[i].first_leaf_vertex == leaf_vertex_total(records.take(i))
        }
}

} // verus!
