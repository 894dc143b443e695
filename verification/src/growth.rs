//! Which branches a tree has: what grows out of each branch, and how large
//! the part of the tree is that hangs on it.

use vstd::prelude::*;
use crate::enums::TreeType;
use crate::layout::own_vertices;
use crate::mesh::{BranchGenState, BranchOutcome, BranchRecord, Placement};
use crate::settings::TreeSettings;

verus! {

/// The three ways in which a branch can go on.
#[derive(Clone, Copy, Debug, PartialEq, Eq, Structural)]
pub enum Growth {
    /// The trunk of a deciduous tree goes on in one more piece.
    Continue,
    /// The recursion has reached its last level: the branch ends in leaves.
    Leaves,
    /// Branches of the next generation grow out of this one.
    Children,
}

/// How a branch of generation `level` at recursion depth `depth` goes on.
///
/// A trunk piece of a deciduous tree continues in another piece as long as the
/// depth is below the number of levels. Otherwise a branch at the last depth
/// ends in leaves, and any other branch has children.
pub open spec fn growth_of(settings: TreeSettings, level: nat, depth: nat) -> Growth {
    if settings.tree_type == TreeType::Deciduous && level == 0 && depth < settings.spec_levels() {
        Growth::Continue
    } else if depth >= settings.spec_levels() {
        Growth::Leaves
    } else {
        Growth::Children
    }
}

/// The state is one that the recursion can work on: the generation is one
/// of the four that the settings describe, the depth is within the number of
/// levels, and the branch has at least one section and one segment.
pub open spec fn valid_state(settings: TreeSettings, state: BranchGenState) -> bool {
    &&& state.level <= 3
    &&& state.recursion_count <= settings.spec_levels()
    &&& state.sections >= 1
    &&& state.segments >= 1
}

/// Whether the last ring of the branch is a tip: it is for every branch at
/// the last depth, and for every branch of an evergreen tree.
pub open spec fn is_pointed(settings: TreeSettings, state: BranchGenState) -> bool {
    state.recursion_count >= settings.spec_levels() || settings.tree_type == TreeType::Evergreen
}

/// What is recorded of how the branch goes on.
pub open spec fn outcome_of(settings: TreeSettings, state: BranchGenState) -> BranchOutcome {
    match growth_of(settings, state.level as nat, state.recursion_count as nat) {
        Growth::Continue => BranchOutcome::Continue,
        Growth::Leaves => BranchOutcome::Leaves { quads: settings.leaves.leaf_billboard.spec_quads() as u8 },
        Growth::Children => BranchOutcome::Children {
            count: settings.spec_child_count(state.recursion_count as nat),
        },
    }
}

/// The first piece of the trunk.
pub open spec fn trunk_state(settings: TreeSettings) -> BranchGenState {
    BranchGenState {
        level: 0,
        recursion_count: 0,
        sections: settings.spec_section_count(0),
        segments: settings.spec_segment_count(0),
        placement: Placement::Root,
    }
}

/// The piece of trunk that continues the branch `state`, whose index is `id`.
/// It has the same numbers of sections and segments, one level deeper.
pub open spec fn continuation_state(state: BranchGenState, id: nat) -> BranchGenState {
    BranchGenState {
        level: state.level,
        recursion_count: (state.recursion_count + 1) as usize,
        sections: state.sections,
        segments: state.segments,
        placement: Placement::Continuation { of: id as u32 },
    }
}

/// Child number `ordinal` of the `count` children of generation `level` that
/// grow out of the branch with index `parent`.
pub open spec fn child_state(
    settings: TreeSettings,
    level: nat,
    parent: nat,
    ordinal: nat,
    count: nat,
) -> BranchGenState {
    BranchGenState {
        level: level as usize,
        recursion_count: level as usize,
        sections: settings.spec_section_count(level),
        segments: settings.spec_segment_count(level),
        placement: Placement::Child {
            parent: parent as u32,
            ordinal: ordinal as u8,
            count: count as u8,
        },
    }
}

/// The record of a branch that is built when the meshes hold `vertex` branch
/// vertices and `leaf` leaf vertices.
pub open spec fn record_of(
    settings: TreeSettings,
    state: BranchGenState,
    vertex: nat,
    leaf: nat,
) -> BranchRecord {
    BranchRecord {
        state,
        first_vertex: vertex as u32,
        first_leaf_vertex: leaf as u32,
        pointed: is_pointed(settings, state),
        outcome: outcome_of(settings, state),
    }
}

/// Number of branches in the part of the tree that starts with a branch of
/// generation `level` at depth `depth`, that branch included.
pub open spec fn subtree_branches(settings: TreeSettings, level: nat, depth: nat) -> nat
    decreases settings.spec_levels() - depth,
{
    match growth_of(settings, level, depth) {
        Growth::Continue => 1 + subtree_branches(settings, level, depth + 1),
        Growth::Leaves => 1,
        Growth::Children => 1 + settings.spec_child_count(depth) as nat * subtree_branches(
            settings,
            depth + 1,
            depth + 1,
        ),
    }
}

/// Number of branch vertices in the part of the tree that starts with a
/// branch of generation `level` at depth `depth` with the given numbers of
/// sections and segments.
pub open spec fn subtree_vertices(
    settings: TreeSettings,
    level: nat,
    depth: nat,
    sections: u8,
    segments: u8,
) -> nat
    decreases settings.spec_levels() - depth,
{
    let own = (sections as nat + 1) * (segments as nat + 1);
    match growth_of(settings, level, depth) {
        Growth::Continue => own + subtree_vertices(settings, level, depth + 1, sections, segments),
        Growth::Leaves => own,
        Growth::Children => own + settings.spec_child_count(depth) as nat * subtree_vertices(
            settings,
            depth + 1,
            depth + 1,
            settings.spec_section_count(depth + 1),
            settings.spec_segment_count(depth + 1),
        ),
    }
}

/// Number of leaf vertices in the part of the tree that starts with a branch
/// of generation `level` at depth `depth`: four for each quad at each tip.
pub open spec fn subtree_leaf_vertices(settings: TreeSettings, level: nat, depth: nat) -> nat
    decreases settings.spec_levels() - depth,
{
    match growth_of(settings, level, depth) {
        Growth::Continue => subtree_leaf_vertices(settings, level, depth + 1),
        Growth::Leaves => 4 * settings.leaves.leaf_billboard.spec_quads(),
        Growth::Children => settings.spec_child_count(depth) as nat * subtree_leaf_vertices(
            settings,
            depth + 1,
            depth + 1,
        ),
    }
}

/// The records of the part of the tree that starts with the branch `state`,
/// in the order in which the branches are built: the branch itself, then
/// what grows out of it, each child with all that hangs on it before the
/// next child.
///
/// `branch`, `vertex` and `leaf` are the numbers of branches, branch vertices
/// and leaf vertices that exist before the branch is built.
pub open spec fn subtree_records(
    settings: TreeSettings,
    state: BranchGenState,
    branch: nat,
    vertex: nat,
    leaf: nat,
) -> Seq<BranchRecord>
    decreases settings.spec_levels() - state.recursion_count, 1nat, 0nat,
{
    let own = record_of(settings, state, vertex, leaf);
    let depth = state.recursion_count as nat;
    match growth_of(settings, state.level as nat, depth) {
        Growth::Continue => seq![own] + subtree_records(
            settings,
            continuation_state(state, branch),
            branch + 1,
            vertex + own_vertices(state),
            leaf,
        ),
        Growth::Leaves => seq![own],
        Growth::Children => seq![own] + children_records(
            settings,
            depth + 1,
            branch,
            settings.spec_child_count(depth) as nat,
            settings.spec_child_count(depth) as nat,
            branch + 1,
            vertex + own_vertices(state),
            leaf,
        ),
    }
}

/// The records of the first `n` of the `count` children of generation `level`
/// of the branch with index `parent`, each with all that hangs on it.
///
/// `branch`, `vertex` and `leaf` are the numbers of branches, branch vertices
/// and leaf vertices that exist before the first child is built.
pub open spec fn children_records(
    settings: TreeSettings,
    level: nat,
    parent: nat,
    count: nat,
    n: nat,
    branch: nat,
    vertex: nat,
    leaf: nat,
) -> Seq<BranchRecord>
    decreases settings.spec_levels() + 1 - level, 0nat, n,
{
    if n == 0 || level > settings.spec_levels() || level > 3 {
        Seq::empty()
    } else {
        let before = (n - 1) as nat;
        children_records(settings, level, parent, count, before, branch, vertex, leaf)
            + subtree_records(
            settings,
            child_state(settings, level, parent, before, count),
            branch + before * subtree_branches(settings, level, level),
            vertex + before * subtree_vertices(
                settings,
                level,
                level,
                settings.spec_section_count(level),
                settings.spec_segment_count(level),
            ),
            leaf + before * subtree_leaf_vertices(settings, level, level),
        )
    }
}

/// Number of branch vertices of the part of the tree that starts with the
/// branch `state`.
pub open spec fn state_vertices(settings: TreeSettings, state: BranchGenState) -> nat {
    subtree_vertices(
        settings,
        state.level as nat,
        state.recursion_count as nat,
        state.sections,
        state.segments,
    )
}

/// Number of leaf vertices of the part of the tree that starts with the
/// branch `state`.
pub open spec fn state_leaf_vertices(settings: TreeSettings, state: BranchGenState) -> nat {
    subtree_leaf_vertices(settings, state.level as nat, state.recursion_count as nat)
}

/// Number of branches of the part of the tree that starts with the branch
/// `state`.
pub open spec fn state_branches(settings: TreeSettings, state: BranchGenState) -> nat {
    subtree_branches(settings, state.level as nat, state.recursion_count as nat)
}

/// The records of the whole tree that the settings describe.
pub open spec fn tree_records(settings: TreeSettings) -> Seq<BranchRecord> {
    subtree_records(settings, trunk_state(settings), 0, 0, 0)
}

/// Number of vertices in the branch mesh of the tree that the settings
/// describe.
pub open spec fn tree_vertices(settings: TreeSettings) -> nat {
    state_vertices(settings, trunk_state(settings))
}

/// Number of vertices in the leaf mesh of the tree that the settings
/// describe.
pub open spec fn tree_leaf_vertices(settings: TreeSettings) -> nat {
    state_leaf_vertices(settings, trunk_state(settings))
}

/// Number of branches of the tree that the settings describe.
pub open spec fn tree_branches(settings: TreeSettings) -> nat {
    state_branches(settings, trunk_state(settings))
}

} // verus!
