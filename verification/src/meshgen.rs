//! The recursion that builds a tree, branch by branch.

use vstd::prelude::*;
use crate::emit::{build_rings, build_triangles, generate_leaf, vertex_count};
use crate::enums::TreeType;
use crate::errors::IndicesOverflowError;
use crate::growth::{
    child_state, children_records, continuation_state, growth_of, is_pointed, outcome_of,
    record_of, state_branches, state_leaf_vertices, state_vertices, subtree_branches,
    subtree_leaf_vertices, subtree_records, subtree_vertices, tree_branches, tree_leaf_vertices,
    tree_records, tree_vertices, valid_state, Growth,
};
use crate::layout::{
    branch_indices, branch_sections, branch_vertices, leaf_index, leaf_indices, leaf_quads,
    leaf_vertex_total, leaf_vertices, mesh_indices, mesh_vertices, offsets_consistent,
    own_vertices, site_indices, site_vertices, vertex_total,
};
use crate::mesh::{
    BranchGenState, BranchOutcome, BranchRecord, IndexWidth, LeafVertex, MeshBuffers, Placement,
    RingVertex, SectionData,
};
use crate::settings::TreeSettings;

verus! {

/// A tree: its branches in the order in which they were built, and the two
/// meshes that they make up.
#[derive(Debug)]
pub struct TreeMesh {
    /// One record per branch. The index of a branch is the place of its
    /// record.
    pub records: Vec<BranchRecord>,
    /// The mesh of the trunk and the branches.
    pub branches: MeshBuffers<RingVertex>,
    /// The mesh of the leaves.
    pub leaves: MeshBuffers<LeafVertex>,
}

impl TreeMesh {
    /// The two meshes hold exactly what the records say, every record starts
    /// where the one before it ends, every index names a vertex of its own
    /// mesh, and every count fits in 32 bits.
    #[verifier::opaque]
    pub open spec fn wf(&self) -> bool {
        &&& self.branches.vertices@ == mesh_vertices(self.records@)
        &&& self.branches.indices@ == mesh_indices(self.records@)
        &&& self.leaves.vertices@ == leaf_vertices(self.records@)
        &&& self.leaves.indices@ == leaf_indices(self.records@)
        &&& self.branches.vertices@.len() == vertex_total(self.records@)
        &&& self.leaves.vertices@.len() == leaf_vertex_total(self.records@)
        &&& offsets_consistent(self.records@)
        &&& self.records@.len() <= self.branches.vertices@.len() <= u32::MAX
        &&& self.leaves.vertices@.len() <= u32::MAX
        &&& self.branches.indices_in_range()
        &&& self.leaves.indices_in_range()
    }

    /// Neither mesh holds more than `limit` vertices.
    pub open spec fn within(&self, limit: u32) -> bool {
        &&& self.branches.vertices@.len() <= limit
        &&& self.leaves.vertices@.len() <= limit
    }

    /// A tree without branches.
    pub fn new() -> (mesh: TreeMesh)
        ensures
            mesh.wf(),
            mesh.records@.len() == 0,
            mesh.branches.vertices@.len() == 0,
            mesh.branches.indices@.len() == 0,
            mesh.leaves.vertices@.len() == 0,
            mesh.leaves.indices@.len() == 0,
    {
        let mesh = TreeMesh {
            records: Vec::new(),
            branches: MeshBuffers::new(),
            leaves: MeshBuffers::new(),
        };
        proof {
            reveal(TreeMesh::wf);
            assert(mesh.branches.vertices@ =~= mesh_vertices(mesh.records@));
            assert(mesh.branches.indices@ =~= mesh_indices(mesh.records@));
            assert(mesh.leaves.vertices@ =~= leaf_vertices(mesh.records@));
            assert(mesh.leaves.indices@ =~= leaf_indices(mesh.records@));
        }
        mesh
    }
}

/// A tree has no more branches than vertices in its branch mesh, and those
/// can be counted in 32 bits.
pub proof fn lemma_branches_are_counted(mesh: TreeMesh)
    requires
        mesh.wf(),
    ensures
        mesh.records@.len() <= mesh.branches.vertices@.len() <= u32::MAX,
        mesh.leaves.vertices@.len() <= u32::MAX,
{
    reveal(TreeMesh::wf);
}

/// What one more record adds to the two meshes and to their totals.
pub proof fn lemma_push_record(records: Seq<BranchRecord>, r: BranchRecord)
    ensures
        mesh_vertices(records.push(r)) == mesh_vertices(records) + branch_vertices(
            r.state,
            records.len(),
        ),
        mesh_indices(records.push(r)) == mesh_indices(records) + branch_indices(
            r.state,
            r.first_vertex as nat,
        ),
        leaf_vertices(records.push(r)) == leaf_vertices(records) + site_vertices(
            r.outcome,
            records.len(),
        ),
        leaf_indices(records.push(r)) == leaf_indices(records) + site_indices(
            r.outcome,
            r.first_leaf_vertex as nat,
        ),
        vertex_total(records.push(r)) == vertex_total(records) + own_vertices(r.state),
        leaf_vertex_total(records.push(r)) == leaf_vertex_total(records) + 4 * leaf_quads(
            r.outcome,
        ),
        offsets_consistent(records) && r.first_vertex == vertex_total(records)
            && r.first_leaf_vertex == leaf_vertex_total(records) ==> offsets_consistent(
            records.push(r),
        ),
{
    let longer = records.push(r);
    assert(longer.drop_last() =~= records);
    assert(longer.last() == r);
    if offsets_consistent(records) && r.first_vertex == vertex_total(records)
        && r.first_leaf_vertex == leaf_vertex_total(records) {
        assert forall|i: int| 0 <= i < longer.len() implies {
            &&& (#[trigger] longer[i]).first_vertex == vertex_total(longer.take(i))
            &&& longer[i].first_leaf_vertex == leaf_vertex_total(longer.take(i))
        } by {
            if i < records.len() {
                assert(longer.take(i) =~= records.take(i));
                assert(longer[i] == records[i]);
            } else {
                assert(longer.take(i) =~= records);
            }
        }
    }
}

/// The children that are placed on a branch: none where `count` is zero or
/// the parent has no rings, else `count` branches of generation `level`,
/// numbered in order, on the parent whose rings these are.
pub open spec fn placed_children(
    settings: TreeSettings,
    count: u8,
    level: nat,
    parent_sections: Seq<SectionData>,
) -> Seq<BranchGenState> {
    if count == 0 || parent_sections.len() == 0 {
        Seq::empty()
    } else {
        Seq::new(
            count as nat,
            |i: int|
                child_state(
                    settings,
                    level,
                    parent_sections[0].branch as nat,
                    i as nat,
                    count as nat,
                ),
        )
    }
}

/// Hands out the `count` children of generation `level` that grow out of the
/// branch with the rings `parent_sections`.
///
/// Each child starts at the same recursion depth as its generation and has
/// the numbers of sections and segments that the settings give for it. Where
/// on its parent a child sits is for the host to draw.
pub fn generate_child_branches(
    count: u8,
    level: usize,
    parent_sections: &Vec<SectionData>,
    settings: &TreeSettings,
) -> (out: Vec<BranchGenState>)
    requires
        level <= 3,
    ensures
        out@ == placed_children(*settings, count, level as nat, parent_sections@),
{
    let mut out: Vec<BranchGenState> = Vec::new();
    if count == 0 || parent_sections.len() == 0 {
        assert(out@ =~= placed_children(*settings, count, level as nat, parent_sections@));
        return out;
    }
    let parent: u32 = parent_sections[0].branch;
    let sections: u8 = settings.section_count(level);
    let segments: u8 = settings.segment_count(level);
    let ghost all = placed_children(*settings, count, level as nat, parent_sections@);
    let mut i: u8 = 0;
    while i < count
        invariant
            i <= count,
            level <= 3,
            parent == parent_sections@[0].branch,
            sections == settings.spec_section_count(level as nat),
            segments == settings.spec_segment_count(level as nat),
            all == placed_children(*settings, count, level as nat, parent_sections@),
            all.len() == count,
            out@ == all.take(i as int),
        decreases count - i,
    {
        proof {
            assert(all.take(i as int).push(all[i as int]) =~= all.take(i + 1));
        }
        out.push(
            BranchGenState {
                level,
                recursion_count: level,
                sections,
                segments,
                placement: Placement::Child { parent, ordinal: i, count },
            },
        );
        i = i + 1;
    }
    proof {
        assert(all.take(all.len() as int) =~= all);
    }
    out
}

/// How the branch goes on once its own rings are built.
pub fn growth(settings: &TreeSettings, state: &BranchGenState) -> (g: Growth)
    ensures
        g == growth_of(*settings, state.level as nat, state.recursion_count as nat),
{
    let levels: usize = settings.levels();
    let deciduous: bool = match settings.tree_type {
        TreeType::Deciduous => true,
        TreeType::Evergreen => false,
    };
    if deciduous && state.level == 0 && state.recursion_count < levels {
        Growth::Continue
    } else if state.recursion_count >= levels {
        Growth::Leaves
    } else {
        Growth::Children
    }
}

/// Builds one branch: its rings and triangles, the leaves at its tip if it
/// ends in leaves, and its record. Returns the rings as the branch's
/// children will see them.
///
/// Fails, and leaves the tree as it is, when one of the two meshes would
/// then hold more than `limit` vertices.
pub fn build_branch(
    settings: &TreeSettings,
    state: BranchGenState,
    limit: u32,
    mesh: &mut TreeMesh,
) -> (built: Result<Vec<SectionData>, IndicesOverflowError>)
    requires
        old(mesh).wf(),
        old(mesh).within(limit),
        valid_state(*settings, state),
    ensures
        final(mesh).wf(),
        final(mesh).within(limit),
        built is Ok <==> {
            &&& old(mesh).branches.vertices@.len() + own_vertices(state) <= limit
            &&& old(mesh).leaves.vertices@.len() + 4 * leaf_quads(outcome_of(*settings, state))
                <= limit
        },
        built is Err ==> *final(mesh) == *old(mesh),
        built matches Ok(sections) ==> {
            &&& final(mesh).records@ == old(mesh).records@.push(
                record_of(
                    *settings,
                    state,
                    old(mesh).branches.vertices@.len(),
                    old(mesh).leaves.vertices@.len(),
                ),
            )
            &&& sections@ == branch_sections(
                state,
                old(mesh).records@.len(),
                is_pointed(*settings, state),
            )
            &&& final(mesh).branches.vertices@.len() == old(mesh).branches.vertices@.len()
                + own_vertices(state)
            &&& final(mesh).leaves.vertices@.len() == old(mesh).leaves.vertices@.len() + 4
                * leaf_quads(outcome_of(*settings, state))
        },
{
    proof {
        reveal(TreeMesh::wf);
    }
    let held: usize = mesh.branches.vertices.len();
    let own: u32 = vertex_count(&state);
    if held > limit as usize || limit as usize - held < own as usize {
        return Err(IndicesOverflowError);
    }
    let levels: usize = settings.levels();
    let evergreen: bool = match settings.tree_type {
        TreeType::Deciduous => false,
        TreeType::Evergreen => true,
    };
    let pointed: bool = state.recursion_count >= levels || evergreen;
    let id: u32 = mesh.records.len() as u32;
    let first: u32 = held as u32;
    let first_leaf: u32 = mesh.leaves.vertices.len() as u32;
    let outcome: BranchOutcome = match growth(settings, &state) {
        Growth::Continue => BranchOutcome::Continue,
        Growth::Leaves => {
            let billboard = settings.leaves.leaf_billboard;
            match generate_leaf(billboard, id, limit, &mut mesh.leaves) {
                Err(e) => {
                    return Err(e);
                },
                Ok(()) => {},
            }
            BranchOutcome::Leaves { quads: billboard.quads() }
        },
        Growth::Children => BranchOutcome::Children {
            count: settings.child_count(state.recursion_count),
        },
    };
    let record = BranchRecord { state, first_vertex: first, first_leaf_vertex: first_leaf, pointed, outcome };
    let ghost old_records = mesh.records@;
    let ghost old_indices = mesh.branches.indices@;
    let ghost old_leaf_indices = old(mesh).leaves.indices@;
    proof {
        lemma_push_record(old_records, record);
        assert(record == record_of(*settings, state, first as nat, first_leaf as nat));
    }
    let sections = build_rings(&state, id, pointed, &mut mesh.branches.vertices);
    build_triangles(&state, first, &mut mesh.branches.indices);
    mesh.records.push(record);
    proof {
        let added = branch_indices(state, first as nat);
        assert forall|k: int| 0 <= k < mesh.branches.indices@.len() implies (
        #[trigger] mesh.branches.indices@[k]) < mesh.branches.vertices@.len() by {
            if k >= old_indices.len() {
                assert(mesh.branches.indices@[k] == added[k - old_indices.len()]);
            } else {
                assert(mesh.branches.indices@[k] == old_indices[k]);
            }
        }
        let leaf_added = site_indices(outcome, first_leaf as nat);
        assert(mesh.leaves.vertices@ =~= leaf_vertices(mesh.records@));
        assert(mesh.leaves.indices@ =~= leaf_indices(mesh.records@));
        assert forall|k: int| 0 <= k < mesh.leaves.indices@.len() implies (
        #[trigger] mesh.leaves.indices@[k]) < mesh.leaves.vertices@.len() by {
            if k >= old_leaf_indices.len() {
                assert(mesh.leaves.indices@[k] == leaf_added[k - old_leaf_indices.len()]);
                assert(leaf_added[k - old_leaf_indices.len()] == leaf_index(
                    first_leaf as nat,
                    k - old_leaf_indices.len(),
                ));
            } else {
                assert(mesh.leaves.indices@[k] == old_leaf_indices[k]);
            }
        }
    }
    Ok(sections)
}

/// Builds the branch `state` and all that grows out of it.
///
/// The branch itself comes first. A trunk piece of a deciduous tree below the
/// last depth is then continued by one more piece. Any other branch at the
/// last depth ends in leaves, and any other branch below it gets as many
/// children as the settings give for its depth, each built with all that
/// hangs on it before the next.
///
/// Fails exactly when one of the two meshes would outgrow `limit` vertices.
/// Whatever was built until then stays, and the tree is still well formed.
pub fn recurse_a_branch(
    settings: &TreeSettings,
    state: BranchGenState,
    limit: u32,
    mesh: &mut TreeMesh,
) -> (done: Result<(), IndicesOverflowError>)
    requires
        old(mesh).wf(),
        old(mesh).within(limit),
        valid_state(*settings, state),
    ensures
        final(mesh).wf(),
        final(mesh).within(limit),
        done is Ok <==> {
            &&& old(mesh).branches.vertices@.len() + state_vertices(*settings, state) <= limit
            &&& old(mesh).leaves.vertices@.len() + state_leaf_vertices(*settings, state) <= limit
        },
        done is Ok ==> {
            &&& final(mesh).records@ == old(mesh).records@ + subtree_records(
                *settings,
                state,
                old(mesh).records@.len(),
                old(mesh).branches.vertices@.len(),
                old(mesh).leaves.vertices@.len(),
            )
            &&& final(mesh).records@.len() == old(mesh).records@.len() + state_branches(
                *settings,
                state,
            )
            &&& final(mesh).branches.vertices@.len() == old(mesh).branches.vertices@.len()
                + state_vertices(*settings, state)
            &&& final(mesh).leaves.vertices@.len() == old(mesh).leaves.vertices@.len()
                + state_leaf_vertices(*settings, state)
        },
    decreases settings.spec_levels() - state.recursion_count,
{
    let ghost old_records = mesh.records@;
    let ghost b0 = mesh.records@.len();
    let ghost v0 = mesh.branches.vertices@.len();
    let ghost l0 = mesh.leaves.vertices@.len();
    let ghost own = record_of(*settings, state, v0, l0);
    let ghost depth = state.recursion_count as nat;
    proof {
        lemma_branches_are_counted(*mesh);
    }
    let id: u32 = mesh.records.len() as u32;
    let sections = match build_branch(settings, state, limit, mesh) {
        Err(e) => {
            return Err(e);
        },
        Ok(sections) => sections,
    };
    match growth(settings, &state) {
        Growth::Continue => {
            let next = BranchGenState {
                level: state.level,
                recursion_count: state.recursion_count + 1,
                sections: state.sections,
                segments: state.segments,
                placement: Placement::Continuation { of: id },
            };
            let ghost tail = subtree_records(
                *settings,
                next,
                (b0 + 1) as nat,
                (v0 + own_vertices(state)) as nat,
                l0,
            );
            let done = recurse_a_branch(settings, next, limit, mesh);
            proof {
                assert(next == continuation_state(state, b0));
                if done is Ok {
                    assert(mesh.records@ =~= old_records + (seq![own] + tail));
                }
            }
            done
        },
        Growth::Leaves => {
            proof {
                assert(mesh.records@ =~= old_records + seq![own]);
            }
            Ok(())
        },
        Growth::Children => {
            let count: u8 = settings.child_count(state.recursion_count);
            let level: usize = state.recursion_count + 1;
            let children = generate_child_branches(count, level, &sections, settings);
            let ghost base = old_records.push(own);
            let ghost b1 = (b0 + 1) as nat;
            let ghost v1 = (v0 + own_vertices(state)) as nat;
            let ghost per_b = subtree_branches(*settings, level as nat, level as nat);
            let ghost per_v = subtree_vertices(
                *settings,
                level as nat,
                level as nat,
                settings.spec_section_count(level as nat),
                settings.spec_segment_count(level as nat),
            );
            let ghost per_l = subtree_leaf_vertices(*settings, level as nat, level as nat);
            proof {
                assert(mesh.records@ =~= base + children_records(
                    *settings,
                    level as nat,
                    b0,
                    count as nat,
                    0,
                    b1,
                    v1,
                    l0,
                ));
            }
            let mut i: usize = 0;
            while i < children.len()
                invariant
                    i <= count,
                    level == state.recursion_count + 1,
                    level <= settings.spec_levels() <= 3,
                    b0 == id,
                    children@ == placed_children(*settings, count, level as nat, sections@),
                    children@.len() == count,
                    sections@.len() > 0,
                    sections@[0].branch == id,
                    mesh.wf(),
                    mesh.within(limit),
                    per_b == subtree_branches(*settings, level as nat, level as nat),
                    per_v == subtree_vertices(
                        *settings,
                        level as nat,
                        level as nat,
                        settings.spec_section_count(level as nat),
                        settings.spec_segment_count(level as nat),
                    ),
                    per_l == subtree_leaf_vertices(*settings, level as nat, level as nat),
                    mesh.records@ == base + children_records(
                        *settings,
                        level as nat,
                        b0,
                        count as nat,
                        i as nat,
                        b1,
                        v1,
                        l0,
                    ),
                    v0 == old(mesh).branches.vertices@.len(),
                    l0 == old(mesh).leaves.vertices@.len(),
                    v1 == v0 + own_vertices(state),
                    state_vertices(*settings, state) == own_vertices(state) + count * per_v,
                    state_leaf_vertices(*settings, state) == count * per_l,
                    mesh.records@.len() == b1 + i * per_b,
                    mesh.branches.vertices@.len() == v1 + i * per_v,
                    mesh.leaves.vertices@.len() == l0 + i * per_l,
                decreases count - i,
            {
                let child = children[i];
                let ghost before = mesh.records@;
                let ghost rest = children_records(
                    *settings,
                    level as nat,
                    b0,
                    count as nat,
                    i as nat,
                    b1,
                    v1,
                    l0,
                );
                let ghost added = subtree_records(
                    *settings,
                    child,
                    (b1 + i * per_b) as nat,
                    (v1 + i * per_v) as nat,
                    (l0 + i * per_l) as nat,
                );
                proof {
                    assert(child == child_state(
                        *settings,
                        level as nat,
                        b0,
                        i as nat,
                        count as nat,
                    ));
                    assert((i + 1) * per_b == i * per_b + per_b) by (nonlinear_arith);
                    assert((i + 1) * per_v == i * per_v + per_v) by (nonlinear_arith);
                    assert((i + 1) * per_l == i * per_l + per_l) by (nonlinear_arith);
                    assert((i + 1) * per_v <= count * per_v) by (nonlinear_arith)
                        requires
                            i + 1 <= count,
                            0 <= per_v,
                    ;
                    assert((i + 1) * per_l <= count * per_l) by (nonlinear_arith)
                        requires
                            i + 1 <= count,
                            0 <= per_l,
                    ;
                }
                match recurse_a_branch(settings, child, limit, mesh) {
                    Err(e) => {
                        return Err(e);
                    },
                    Ok(()) => {},
                }
                proof {
                    assert(mesh.records@ =~= base + (rest + added));
                }
                i = i + 1;
            }
            Ok(())
        },
    }
}

/// Builds the part of a tree that starts with the branch `state`, into two
/// fresh meshes.
///
/// Fails exactly when one of the meshes would hold more vertices than
/// indices of width `width` can count.
pub fn generate_branches_internal(
    settings: &TreeSettings,
    state: BranchGenState,
    width: IndexWidth,
) -> (tree: Result<TreeMesh, IndicesOverflowError>)
    requires
        valid_state(*settings, state),
    ensures
        tree is Ok <==> {
            &&& state_vertices(*settings, state) <= width.spec_max_vertices()
            &&& state_leaf_vertices(*settings, state) <= width.spec_max_vertices()
        },
        tree matches Ok(mesh) ==> {
            &&& mesh.wf()
            &&& mesh.records@ == subtree_records(*settings, state, 0, 0, 0)
            &&& mesh.records@.len() == state_branches(*settings, state)
            &&& mesh.branches.vertices@.len() == state_vertices(*settings, state)
            &&& mesh.leaves.vertices@.len() == state_leaf_vertices(*settings, state)
        },
{
    let mut mesh = TreeMesh::new();
    match recurse_a_branch(settings, state, width.max_vertices(), &mut mesh) {
        Err(e) => Err(e),
        Ok(()) => {
            proof {
                let all = subtree_records(*settings, state, 0, 0, 0);
                assert(Seq::<BranchRecord>::empty() + all =~= all);
            }
            Ok(mesh)
        },
    }
}

/// Builds the tree that the settings describe.
///
/// The tree starts with the trunk at recursion depth 0. Fails exactly when
/// the branch mesh or the leaf mesh would hold more vertices than indices of
/// width `width` can count.
pub fn generate_tree(settings: &TreeSettings, width: IndexWidth) -> (tree: Result<
    TreeMesh,
    IndicesOverflowError,
>)
    ensures
        tree is Ok <==> tree_fits(*settings, width),
        tree matches Ok(mesh) ==> is_tree_of(mesh, *settings),
{
    let state = BranchGenState {
        level: 0,
        recursion_count: 0,
        sections: settings.section_count(0),
        segments: settings.segment_count(0),
        placement: Placement::Root,
    };
    generate_branches_internal(settings, state, width)
}

/// Both meshes of the tree that the settings describe can be indexed with
/// indices of width `width`.
pub open spec fn tree_fits(settings: TreeSettings, width: IndexWidth) -> bool {
    &&& tree_vertices(settings) <= width.spec_max_vertices()
    &&& tree_leaf_vertices(settings) <= width.spec_max_vertices()
}

/// `mesh` is the tree that the settings describe: it has the branches of that
/// tree, in order, and its two meshes hold what those branches say.
pub open spec fn is_tree_of(mesh: TreeMesh, settings: TreeSettings) -> bool {
    &&& mesh.wf()
    &&& mesh.records@ == tree_records(settings)
    &&& mesh.records@.len() == tree_branches(settings)
    &&& mesh.branches.vertices@.len() == tree_vertices(settings)
    &&& mesh.leaves.vertices@.len() == tree_leaf_vertices(settings)
}

} // verus!
