//! Building the rings, triangles and leaves of one branch.

use vstd::prelude::*;
use vstd::arithmetic::div_mod::lemma_fundamental_div_mod_converse;
use crate::layout::{
    branch_indices, branch_sections, branch_vertices, cell_corner, leaf_index, leaf_quads,
    own_indices, own_vertices, ring_stride, site_indices, site_vertices, triangle_index,
};
use crate::enums::LeafBillboard;
use crate::errors::IndicesOverflowError;
use crate::mesh::{
    BranchGenState, BranchOutcome, DebugColor, LeafVertex, MeshBuffers, RingVertex, SectionData,
    TexCoord,
};

verus! {

/// Place `j` of ring `r` is vertex number `r * stride + j` of the branch.
pub proof fn lemma_ring_place(state: BranchGenState, r: int, j: int)
    requires
        0 <= r <= state.sections,
        0 <= j <= state.segments,
    ensures
        0 <= r * ring_stride(state) + j < own_vertices(state),
        (r * ring_stride(state) + j) / (ring_stride(state) as int) == r,
        (r * ring_stride(state) + j) % (ring_stride(state) as int) == j,
{
    let stride = ring_stride(state) as int;
    lemma_fundamental_div_mod_converse(r * stride + j, stride, r, j);
    assert(0 <= r * stride) by (nonlinear_arith)
        requires
            0 <= r,
            0 < stride,
    ;
    assert(r * stride + stride <= (state.sections + 1) * stride) by (nonlinear_arith)
        requires
            r <= state.sections,
            0 < stride,
    ;
}

/// Corner `corner` of cell `(i, j)` is index number `6 * (i * segments + j) +
/// corner` of the branch, and it names one of the branch's own vertices.
pub proof fn lemma_cell_place(state: BranchGenState, first: nat, i: int, j: int, corner: int)
    requires
        0 <= i < state.sections,
        0 <= j < state.segments,
        0 <= corner < 6,
    ensures
        0 <= 6 * (i * state.segments + j) + corner < own_indices(state),
        triangle_index(state, first, 6 * (i * state.segments + j) + corner) == cell_corner(
            state,
            first,
            i,
            j,
            corner,
        ) as u32,
        first <= cell_corner(state, first, i, j, corner) < first + own_vertices(state),
{
    let segments = state.segments as int;
    let cell = i * segments + j;
    let k = 6 * cell + corner;
    lemma_fundamental_div_mod_converse(k, 6, cell, corner);
    lemma_fundamental_div_mod_converse(cell, segments, i, j);
    assert(0 <= i * segments) by (nonlinear_arith)
        requires
            0 <= i,
            0 < segments,
    ;
    assert(i * segments + segments <= state.sections * segments) by (nonlinear_arith)
        requires
            i < state.sections,
            0 < segments,
    ;
    let stride = ring_stride(state) as int;
    assert(0 <= i * stride) by (nonlinear_arith)
        requires
            0 <= i,
            0 < stride,
    ;
    assert((i + 2) * stride <= (state.sections + 1) * stride) by (nonlinear_arith)
        requires
            i < state.sections,
            0 < stride,
    ;
    assert((i + 2) * stride == i * stride + 2 * stride) by (nonlinear_arith);
}

/// Index number `k` of a branch is a corner of one of its cells, and names
/// one of the branch's own vertices.
pub proof fn lemma_index_cell(state: BranchGenState, first: nat, k: int)
    requires
        0 <= k < own_indices(state),
        first + own_vertices(state) <= u32::MAX,
    ensures
        first <= triangle_index(state, first, k) < first + own_vertices(state),
{
    let segments = state.segments as int;
    let cell = k / 6;
    assert(state.sections as nat * state.segments as nat > 0);
    assert(segments > 0) by (nonlinear_arith)
        requires
            state.sections as nat * state.segments as nat > 0,
            segments == state.segments,
    ;
    let i = cell / segments;
    let j = cell % segments;
    vstd::arithmetic::div_mod::lemma_fundamental_div_mod(cell, segments);
    vstd::arithmetic::div_mod::lemma_div_pos_is_pos(cell, segments);
    assert(0 <= j < segments) by {
        vstd::arithmetic::div_mod::lemma_mod_pos_bound(cell, segments);
    }
    assert(i < state.sections) by (nonlinear_arith)
        requires
            cell == segments * i + j,
            0 <= j,
            cell < state.sections * segments,
            segments > 0,
    ;
    lemma_cell_place(state, first, i, j, k % 6);
}

/// Number of vertices of the branch: one ring more than it has sections,
/// each with one vertex more than the branch has segments.
pub fn vertex_count(state: &BranchGenState) -> (n: u32)
    ensures
        n == own_vertices(*state),
        1 <= n <= 65536,
{
    let rings: u32 = state.sections as u32 + 1;
    let stride: u32 = state.segments as u32 + 1;
    proof {
        assert(1 <= rings * stride <= 256 * 256) by (nonlinear_arith)
            requires
                1 <= rings <= 256,
                1 <= stride <= 256,
        ;
        assert(rings * stride == own_vertices(*state)) by (nonlinear_arith)
            requires
                rings == state.sections + 1,
                stride == state.segments + 1,
                own_vertices(*state) == (state.sections as nat + 1) * (state.segments as nat + 1),
        ;
    }
    rings * stride
}

/// Number of vertices of the leaves at the tip of a branch with this
/// outcome: four for each quad.
pub fn leaf_vertex_count(outcome: &BranchOutcome) -> (n: u32)
    ensures
        n == 4 * leaf_quads(*outcome),
{
    match outcome {
        BranchOutcome::Leaves { quads } => 4 * (*quads as u32),
        _ => 0,
    }
}

/// Builds the rings of one branch: appends its vertices to `vertices`, ring
/// by ring, and returns the rings as the branch's children will see them.
///
/// Each ring takes one vertex per segment and then closes on a copy of its
/// first vertex, whose U is 1. The last ring is marked as a tip where the
/// branch is pointed.
pub fn build_rings(
    state: &BranchGenState,
    id: u32,
    pointed: bool,
    vertices: &mut Vec<RingVertex>,
) -> (sections: Vec<SectionData>)
    ensures
        final(vertices)@ == old(vertices)@ + branch_vertices(*state, id as nat),
        sections@ == branch_sections(*state, id as nat, pointed),
{
    let ghost before = vertices@;
    let ghost all = branch_vertices(*state, id as nat);
    let ghost rings = branch_sections(*state, id as nat, pointed);
    let color: DebugColor = DebugColor::for_depth(state.recursion_count);
    let mut sections: Vec<SectionData> = Vec::new();
    let mut ring: usize = 0;
    while ring <= state.sections as usize
        invariant
            ring <= state.sections + 1,
            color == DebugColor::of_depth(state.recursion_count as nat),
            all == branch_vertices(*state, id as nat),
            rings == branch_sections(*state, id as nat, pointed),
            vertices@ == before + all.take(ring * ring_stride(*state)),
            sections@ == rings.take(ring as int),
        decreases state.sections + 1 - ring,
    {
        let v: u8 = (ring % 2) as u8;
        let mut place: usize = 0;
        while place < state.segments as usize
            invariant
                ring <= state.sections,
                place <= state.segments,
                v == (ring % 2) as u8,
                color == DebugColor::of_depth(state.recursion_count as nat),
                all == branch_vertices(*state, id as nat),
                vertices@ == before + all.take(ring * ring_stride(*state) + place),
            decreases state.segments - place,
        {
            proof {
                lemma_ring_place(*state, ring as int, place as int);
                let k = ring * ring_stride(*state) + place;
                assert(all.take(k).push(all[k]) =~= all.take(k + 1));
            }
            vertices.push(
                RingVertex {
                    branch: id,
                    ring: ring as u8,
                    step: place as u8,
                    uv: TexCoord { u_numerator: place as u8, u_denominator: state.segments, v },
                    color,
                },
            );
            place = place + 1;
        }
        proof {
            lemma_ring_place(*state, ring as int, state.segments as int);
            let k = ring * ring_stride(*state) + state.segments;
            assert(all.take(k).push(all[k]) =~= all.take(k + 1));
            assert(k + 1 == (ring + 1) * ring_stride(*state)) by (nonlinear_arith)
                requires
                    k == ring * ring_stride(*state) + state.segments,
                    ring_stride(*state) == state.segments + 1,
            ;
            assert(rings.take(ring as int).push(rings[ring as int]) =~= rings.take(ring + 1));
        }
        vertices.push(
            RingVertex {
                branch: id,
                ring: ring as u8,
                step: 0,
                uv: TexCoord { u_numerator: state.segments, u_denominator: state.segments, v },
                color,
            },
        );
        sections.push(
            SectionData { branch: id, ring: ring as u8, tip: pointed && ring == state.sections as usize },
        );
        ring = ring + 1;
    }
    proof {
        assert(all.take(all.len() as int) =~= all);
        assert(rings.take(rings.len() as int) =~= rings);
    }
    sections
}

/// Builds the triangles of one branch whose first vertex has index `first`:
/// appends six indices for each cell between neighbouring rings and
/// neighbouring places.
///
/// Every index that is appended names one of the branch's own vertices.
pub fn build_triangles(state: &BranchGenState, first: u32, indices: &mut Vec<u32>)
    requires
        first + own_vertices(*state) <= u32::MAX,
    ensures
        final(indices)@ == old(indices)@ + branch_indices(*state, first as nat),
        forall|k: int|
            0 <= k < own_indices(*state) ==> first <= #[trigger] branch_indices(
                *state,
                first as nat,
            )[k] < first + own_vertices(*state),
{
    let ghost before = indices@;
    let ghost all = branch_indices(*state, first as nat);
    let stride: u32 = state.segments as u32 + 1;
    let mut i: u32 = 0;
    while i < state.sections as u32
        invariant
            i <= state.sections,
            stride == ring_stride(*state),
            first + own_vertices(*state) <= u32::MAX,
            all == branch_indices(*state, first as nat),
            indices@ == before + all.take(6 * (i * state.segments)),
        decreases state.sections - i,
    {
        let mut j: u32 = 0;
        while j < state.segments as u32
            invariant
                i < state.sections,
                j <= state.segments,
                stride == ring_stride(*state),
                first + own_vertices(*state) <= u32::MAX,
                all == branch_indices(*state, first as nat),
                indices@ == before + all.take(6 * (i * state.segments + j)),
            decreases state.segments - j,
        {
            proof {
                lemma_cell_place(*state, first as nat, i as int, j as int, 0);
                lemma_cell_place(*state, first as nat, i as int, j as int, 1);
                lemma_cell_place(*state, first as nat, i as int, j as int, 2);
                lemma_cell_place(*state, first as nat, i as int, j as int, 3);
                lemma_cell_place(*state, first as nat, i as int, j as int, 4);
                lemma_cell_place(*state, first as nat, i as int, j as int, 5);
                assert(0 <= i * stride) by (nonlinear_arith)
                    requires
                        0 <= i,
                        0 <= stride,
                ;
            }
            let a: u32 = first + i * stride + j;
            let b: u32 = a + 1;
            let c: u32 = a + stride;
            let d: u32 = b + stride;
            let ghost k = 6 * (i * state.segments + j);
            indices.push(a);
            indices.push(c);
            indices.push(b);
            indices.push(b);
            indices.push(c);
            indices.push(d);
            proof {
                assert(all.take(k).push(all[k]).push(all[k + 1]).push(all[k + 2]).push(
                    all[k + 3],
                ).push(all[k + 4]).push(all[k + 5]) =~= all.take(k + 6));
            }
            j = j + 1;
        }
        proof {
            assert(6 * (i * state.segments + state.segments) == 6 * ((i + 1) * state.segments))
                by (nonlinear_arith);
        }
        i = i + 1;
    }
    proof {
        assert(all.take(all.len() as int) =~= all);
        assert forall|k: int| 0 <= k < own_indices(*state) implies first <= #[trigger] all[k]
            < first + own_vertices(*state) by {
            lemma_index_cell(*state, first as nat, k);
        }
    }
}

/// Builds the leaf cluster at the tip of the branch with index `site`: one
/// quad, or two crossed ones, of four vertices and two triangles each.
///
/// Fails, and leaves the mesh as it is, when the mesh would then hold more
/// than `limit` vertices.
pub fn generate_leaf(
    billboard: LeafBillboard,
    site: u32,
    limit: u32,
    leaves: &mut MeshBuffers<LeafVertex>,
) -> (done: Result<(), IndicesOverflowError>)
    ensures
        done is Ok <==> old(leaves).vertices@.len() + 4 * billboard.spec_quads() <= limit,
        done is Err ==> *final(leaves) == *old(leaves),
        done is Ok ==> final(leaves).vertices@ == old(leaves).vertices@ + site_vertices(
            BranchOutcome::Leaves { quads: billboard.spec_quads() as u8 },
            site as nat,
        ),
        done is Ok ==> final(leaves).indices@ == old(leaves).indices@ + site_indices(
            BranchOutcome::Leaves { quads: billboard.spec_quads() as u8 },
            old(leaves).vertices@.len(),
        ),
        done is Ok ==> forall|k: int|
            0 <= k < 6 * billboard.spec_quads() ==> old(leaves).vertices@.len() <= #[trigger] leaf_index(
                old(leaves).vertices@.len(),
                k,
            ) < old(leaves).vertices@.len() + 4 * billboard.spec_quads(),
{
    let quads: u8 = billboard.quads();
    let held: usize = leaves.vertices.len();
    if held > limit as usize || limit as usize - held < 4 * quads as usize {
        return Err(IndicesOverflowError);
    }
    let ghost outcome = BranchOutcome::Leaves { quads };
    let ghost old_vertices = leaves.vertices@;
    let ghost old_indices = leaves.indices@;
    let ghost all = site_vertices(outcome, site as nat);
    let ghost all_indices = site_indices(outcome, held as nat);
    let mut start: u32 = held as u32;
    let mut quad: u8 = 0;
    while quad < quads
        invariant
            quad <= quads <= 2,
            held + 4 * quads <= limit,
            start == held + 4 * quad,
            all == site_vertices(outcome, site as nat),
            all_indices == site_indices(outcome, held as nat),
            outcome == (BranchOutcome::Leaves { quads }),
            leaves.vertices@ == old_vertices + all.take(4 * quad),
            leaves.indices@ == old_indices + all_indices.take(6 * quad),
        decreases quads - quad,
    {
        let ghost k = 4 * quad as int;
        let ghost n = 6 * quad as int;
        leaves.vertices.push(
            LeafVertex {
                site,
                quad,
                corner: 0,
                uv: TexCoord { u_numerator: 0, u_denominator: 1, v: 1 },
            },
        );
        leaves.vertices.push(
            LeafVertex {
                site,
                quad,
                corner: 1,
                uv: TexCoord { u_numerator: 0, u_denominator: 1, v: 0 },
            },
        );
        leaves.vertices.push(
            LeafVertex {
                site,
                quad,
                corner: 2,
                uv: TexCoord { u_numerator: 1, u_denominator: 1, v: 0 },
            },
        );
        leaves.vertices.push(
            LeafVertex {
                site,
                quad,
                corner: 3,
                uv: TexCoord { u_numerator: 1, u_denominator: 1, v: 1 },
            },
        );
        leaves.indices.push(start);
        leaves.indices.push(start + 1);
        leaves.indices.push(start + 2);
        leaves.indices.push(start);
        leaves.indices.push(start + 2);
        leaves.indices.push(start + 3);
        proof {
            assert(all.take(k).push(all[k]).push(all[k + 1]).push(all[k + 2]).push(all[k + 3])
                =~= all.take(k + 4));
            assert(all_indices.take(n).push(all_indices[n]).push(all_indices[n + 1]).push(
                all_indices[n + 2],
            ).push(all_indices[n + 3]).push(all_indices[n + 4]).push(all_indices[n + 5])
                =~= all_indices.take(n + 6));
        }
        start = start + 4;
        quad = quad + 1;
    }
    proof {
        assert(all.take(all.len() as int) =~= all);
        assert(all_indices.take(all_indices.len() as int) =~= all_indices);
    }
    Ok(())
}

} // verus!
