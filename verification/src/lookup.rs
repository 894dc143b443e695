//! Finding the vertices of a given branch in the two meshes.

use vstd::prelude::*;
use crate::layout::{
    branch_vertices, leaf_quads, leaf_vertex, leaf_vertex_total, leaf_vertices, mesh_vertices,
    offsets_consistent, own_vertices, ring_vertex, site_vertices, vertex_total,
};
use crate::mesh::BranchRecord;

verus! {

/// The branch mesh has as many vertices as the records count, and so has
/// the leaf mesh.
pub proof fn lemma_mesh_lengths(records: Seq<BranchRecord>)
    ensures
        mesh_vertices(records).len() == vertex_total(records),
        leaf_vertices(records).len() == leaf_vertex_total(records),
    decreases records.len(),
{
    if records.len() > 0 {
        lemma_mesh_lengths(records.drop_last());
    }
}

/// The `k`-th vertex of branch `i` lies behind the vertices of all branches
/// before it.
pub proof fn lemma_vertex_place(records: Seq<BranchRecord>, i: int, k: int)
    requires
        0 <= i < records.len(),
        0 <= k < own_vertices(records[i].state),
    ensures
        vertex_total(records.take(i)) + k < mesh_vertices(records).len(),
        mesh_vertices(records)[vertex_total(records.take(i)) + k] == ring_vertex(
            records[i].state,
            i as nat,
            k,
        ),
    decreases records.len(),
{
    let shorter = records.drop_last();
    let head = mesh_vertices(shorter);
    let tail = branch_vertices(records.last().state, (records.len() - 1) as nat);
    lemma_mesh_lengths(shorter);
    assert(mesh_vertices(records) == head + tail);
    let place = vertex_total(records.take(i)) + k;
    if i == records.len() - 1 {
        assert(records.take(i) =~= shorter);
        assert((head + tail)[place] == tail[k]);
    } else {
        assert(shorter.take(i) =~= records.take(i));
        assert(shorter[i] == records[i]);
        lemma_vertex_place(shorter, i, k);
        assert((head + tail)[place] == head[place]);
    }
}

/// The `k`-th vertex of the leaves of branch `i` lies behind the leaves of
/// all branches before it.
pub proof fn lemma_leaf_place(records: Seq<BranchRecord>, i: int, k: int)
    requires
        0 <= i < records.len(),
        0 <= k < 4 * leaf_quads(records[i].outcome),
    ensures
        leaf_vertex_total(records.take(i)) + k < leaf_vertices(records).len(),
        leaf_vertices(records)[leaf_vertex_total(records.take(i)) + k] == leaf_vertex(
            i as nat,
            k,
        ),
    decreases records.len(),
{
    let shorter = records.drop_last();
    let head = leaf_vertices(shorter);
    let tail = site_vertices(records.last().outcome, (records.len() - 1) as nat);
    lemma_mesh_lengths(shorter);
    assert(leaf_vertices(records) == head + tail);
    let place = leaf_vertex_total(records.take(i)) + k;
    if i == records.len() - 1 {
        assert(records.take(i) =~= shorter);
        assert((head + tail)[place] == tail[k]);
    } else {
        assert(shorter.take(i) =~= records.take(i));
        assert(shorter[i] == records[i]);
        lemma_leaf_place(shorter, i, k);
        assert((head + tail)[place] == head[place]);
    }
}

/// The `k`-th vertex of branch `i` lies at place `first_vertex + k` of the
/// branch mesh.
pub proof fn lemma_vertex_lookup(records: Seq<BranchRecord>, i: int, k: int)
    requires
        offsets_consistent(records),
        0 <= i < records.len(),
        0 <= k < own_vertices(records[i].state),
    ensures
        records[i].first_vertex + k < mesh_vertices(records).len(),
        mesh_vertices(records)[records[i].first_vertex + k] == ring_vertex(
            records[i].state,
            i as nat,
            k,
        ),
{
    lemma_vertex_place(records, i, k);
}

/// The `k`-th vertex of the leaves of branch `i` lies at place
/// `first_leaf_vertex + k` of the leaf mesh.
pub proof fn lemma_leaf_lookup(records: Seq<BranchRecord>, i: int, k: int)
    requires
        offsets_consistent(records),
        0 <= i < records.len(),
        0 <= k < 4 * leaf_quads(records[i].outcome),
    ensures
        records[i].first_leaf_vertex + k < leaf_vertices(records).len(),
        leaf_vertices(records)[records[i].first_leaf_vertex + k] == leaf_vertex(i as nat, k),
{
    lemma_leaf_place(records, i, k);
}

} // verus!
