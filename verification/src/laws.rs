//! What holds of every tree that this crate builds.

use vstd::prelude::*;
use crate::emit::lemma_ring_place;
use crate::enums::TreeType;
use crate::growth::{
    children_records, outcome_of, record_of, subtree_records, trunk_state, valid_state,
};
use crate::layout::{corner_uv, leaf_quads, own_vertices, ring_stride, ring_vertex, vertex_at};
use crate::lineage::{
    call_depth, hangs_within, lemma_call_depth, lemma_subtree_len, lemma_subtree_linked,
    lemma_tree_is_sound, sound_record,
};
use crate::lookup::{lemma_leaf_lookup, lemma_vertex_lookup};
use crate::mesh::{BranchGenState, BranchOutcome, BranchRecord, IndexWidth, Placement};
use crate::meshgen::{is_tree_of, tree_fits, TreeMesh};
use crate::settings::TreeSettings;

verus! {

/// Two trees built from the same settings are the same, branch for branch,
/// vertex for vertex and index for index.
pub proof fn lemma_generation_is_deterministic(a: TreeMesh, b: TreeMesh, settings: TreeSettings)
    requires
        is_tree_of(a, settings),
        is_tree_of(b, settings),
    ensures
        a.records@ == b.records@,
        a.branches.vertices@ == b.branches.vertices@,
        a.branches.indices@ == b.branches.indices@,
        a.leaves.vertices@ == b.leaves.vertices@,
        a.leaves.indices@ == b.leaves.indices@,
{
    reveal(TreeMesh::wf);
}

/// Every ring closes on itself: its last vertex lies on the same branch,
/// ring and step as its first, so that the two share position and normal,
/// and has the same V and colour. Only U differs: it is 0 for the first
/// vertex and 1 for the last.
pub proof fn lemma_rings_close(mesh: TreeMesh, i: int, ring: int)
    requires
        mesh.wf(),
        0 <= i < mesh.records@.len(),
        0 <= ring <= mesh.records@[i].state.sections,
    ensures
        ({
            let state = mesh.records@[i].state;
            let start = mesh.records@[i].first_vertex + ring * (state.segments + 1);
            let first = mesh.branches.vertices@[start];
            let last = mesh.branches.vertices@[start + state.segments];
            &&& 0 <= start
            &&& start + state.segments < mesh.branches.vertices@.len()
            &&& first.branch == i && last.branch == i
            &&& first.ring == ring && last.ring == ring
            &&& first.step == 0 && last.step == 0
            &&& first.uv.v == last.uv.v
            &&& first.color == last.color
            &&& first.uv.u_denominator == state.segments
            &&& last.uv.u_denominator == state.segments
            &&& first.uv.u_numerator == 0
            &&& last.uv.u_numerator == state.segments
        }),
{
    reveal(TreeMesh::wf);
    let record = mesh.records@[i];
    let state = record.state;
    lemma_ring_place(state, ring, 0);
    lemma_ring_place(state, ring, state.segments as int);
    let k = ring * ring_stride(state);
    lemma_vertex_lookup(mesh.records@, i, k);
    lemma_vertex_lookup(mesh.records@, i, k + state.segments);
    assert(ring_vertex(state, i as nat, k) == vertex_at(state, i as nat, ring, 0));
    assert(ring_vertex(state, i as nat, k + state.segments) == vertex_at(
        state,
        i as nat,
        ring,
        state.segments as int,
    ));
}

/// The leaves of a branch sit on that branch: each of the four vertices of
/// each of its quads names the branch as its site, and says which quad and
/// which corner it is.
pub proof fn lemma_leaves_sit_on_their_branch(mesh: TreeMesh, i: int, quad: int, corner: int)
    requires
        mesh.wf(),
        0 <= i < mesh.records@.len(),
        0 <= quad < leaf_quads(mesh.records@[i].outcome),
        0 <= corner < 4,
    ensures
        ({
            let place = mesh.records@[i].first_leaf_vertex + 4 * quad + corner;
            let vertex = mesh.leaves.vertices@[place];
            &&& 0 <= place < mesh.leaves.vertices@.len()
            &&& vertex.site == i
            &&& vertex.quad == quad
            &&& vertex.corner == corner
            &&& vertex.uv == corner_uv(corner)
        }),
{
    reveal(TreeMesh::wf);
    lemma_leaf_lookup(mesh.records@, i, 4 * quad + corner);
}

/// Every triangle of either mesh joins vertices of that mesh.
pub proof fn lemma_indices_are_valid(mesh: TreeMesh, settings: TreeSettings)
    requires
        is_tree_of(mesh, settings),
    ensures
        forall|k: int|
            0 <= k < mesh.branches.indices@.len() ==> (#[trigger] mesh.branches.indices@[k])
                < mesh.branches.vertices@.len(),
        forall|k: int|
            0 <= k < mesh.leaves.indices@.len() ==> (#[trigger] mesh.leaves.indices@[k])
                < mesh.leaves.vertices@.len(),
{
    reveal(TreeMesh::wf);
}

/// The recursion never goes deeper than the number of levels allows: every
/// branch of a tree was built in a call nested one deeper than its recursion
/// count, which is one more than that of the branch it hangs on, and no call
/// is nested deeper than `levels + 1`, which is four at most.
pub proof fn lemma_recursion_is_bounded(mesh: TreeMesh, settings: TreeSettings, i: int)
    requires
        is_tree_of(mesh, settings),
        0 <= i < mesh.records@.len(),
    ensures
        call_depth(mesh.records@, i) == mesh.records@[i].state.recursion_count + 1,
        call_depth(mesh.records@, i) <= settings.spec_levels() + 1 <= 4,
{
    reveal(TreeMesh::wf);
    lemma_call_depth(settings, i);
}

/// Every branch hangs where its record says: the first branch of a tree
/// and no other is the root, a piece of trunk continues the branch just
/// before it, which says that it continues, and a child grows on an earlier
/// branch that has as many children as the child knows of, more than the
/// child's own number.
pub proof fn lemma_branches_hang_together(mesh: TreeMesh, settings: TreeSettings, i: int)
    requires
        is_tree_of(mesh, settings),
        0 <= i < mesh.records@.len(),
    ensures
        match mesh.records@[i].state.placement {
            Placement::Root => i == 0,
            Placement::Continuation { of } => {
                &&& of + 1 == i
                &&& mesh.records@[of as int].outcome == BranchOutcome::Continue
            },
            Placement::Child { parent, ordinal, count } => {
                &&& parent < i
                &&& mesh.records@[parent as int].outcome == (BranchOutcome::Children { count })
                &&& ordinal < count
            },
        },
{
    reveal(TreeMesh::wf);
    let trunk = trunk_state(settings);
    lemma_subtree_len(settings, trunk, 0, 0, 0);
    lemma_subtree_linked(settings, trunk, 0, 0, 0);
    if i > 0 {
        assert(hangs_within(mesh.records@, 0, i));
    }
}

/// Every branch that ends in leaves ends in a tip, and so does every branch
/// of an evergreen tree: the radius of its last ring is forced down to the
/// smallest radius that the host works with.
pub proof fn lemma_terminal_branches_are_pointed(mesh: TreeMesh, settings: TreeSettings, i: int)
    requires
        is_tree_of(mesh, settings),
        0 <= i < mesh.records@.len(),
    ensures
        mesh.records@[i].outcome is Leaves ==> mesh.records@[i].pointed,
        settings.tree_type == TreeType::Evergreen ==> mesh.records@[i].pointed,
        mesh.records@[i].pointed ==> (mesh.records@[i].outcome is Leaves || settings.tree_type
            == TreeType::Evergreen),
{
    lemma_tree_is_sound(settings);
    assert(sound_record(settings, mesh.records@[i]));
}

/// A branch with no children is followed by nothing of its own: where the
/// settings give a depth no children, a branch at that depth that neither
/// continues nor ends in leaves adds just itself to the tree.
pub proof fn lemma_childless_branch_stands_alone(
    settings: TreeSettings,
    state: BranchGenState,
    branch: nat,
    vertex: nat,
    leaf: nat,
)
    requires
        valid_state(settings, state),
        outcome_of(settings, state) == (BranchOutcome::Children { count: 0 }),
    ensures
        subtree_records(settings, state, branch, vertex, leaf) == seq![
            record_of(settings, state, vertex, leaf),
        ],
{
    let own = record_of(settings, state, vertex, leaf);
    let depth = state.recursion_count as nat;
    assert(children_records(
        settings,
        depth + 1,
        branch,
        0,
        0,
        branch + 1,
        vertex + own_vertices(state),
        leaf,
    ) =~= Seq::empty());
    assert(seq![own] + Seq::<BranchRecord>::empty() =~= seq![own]);
}

/// A tree that was built for 16 bit indices has no index that needs more
/// than 16 bits.
pub proof fn lemma_fitting_tree_has_narrow_indices(mesh: TreeMesh, settings: TreeSettings)
    requires
        is_tree_of(mesh, settings),
        tree_fits(settings, IndexWidth::U16),
    ensures
        forall|k: int|
            0 <= k < mesh.branches.indices@.len() ==> (#[trigger] mesh.branches.indices@[k])
                <= u16::MAX,
        forall|k: int|
            0 <= k < mesh.leaves.indices@.len() ==> (#[trigger] mesh.leaves.indices@[k])
                <= u16::MAX,
{
    reveal(TreeMesh::wf);
}

} // verus!
