//! What holds of the branches of every tree: what their records say, which
//! branch hangs on which, and how deep the recursion was for each.

use vstd::prelude::*;
use crate::growth::{
    child_state, children_records, continuation_state, growth_of, is_pointed, outcome_of,
    record_of, state_branches, subtree_branches, subtree_leaf_vertices, subtree_records,
    subtree_vertices, tree_records, trunk_state, valid_state, Growth,
};
use crate::layout::own_vertices;
use crate::mesh::{BranchGenState, BranchOutcome, BranchRecord, Placement};
use crate::settings::TreeSettings;

verus! {

/// The index of the branch that the branch of this record hangs on, if it
/// hangs on any.
pub open spec fn parent_of(r: BranchRecord) -> Option<nat> {
    match r.state.placement {
        Placement::Root => None,
        Placement::Continuation { of } => Some(of as nat),
        Placement::Child { parent, .. } => Some(parent as nat),
    }
}

/// How many calls deep the recursion was when it built branch `i`: one call
/// for a branch that hangs on no other, and one more than for its parent for
/// any other branch.
pub open spec fn call_depth(records: Seq<BranchRecord>, i: int) -> nat
    decreases i,
{
    if i < 0 || i >= records.len() {
        0
    } else {
        match parent_of(records[i]) {
            Some(p) if p < i => 1 + call_depth(records, p as int),
            _ => 1,
        }
    }
}

/// The branch of `child` is one that the branch of `parent`, `back` places
/// before it, says it has: the piece that continues it, which follows it at
/// once, or one of as many children as it has.
pub open spec fn grown_from(parent: BranchRecord, child: BranchRecord, back: int) -> bool {
    match child.state.placement {
        Placement::Root => false,
        Placement::Continuation { .. } => parent.outcome == BranchOutcome::Continue && back == 1,
        Placement::Child { ordinal, count, .. } => parent.outcome == (BranchOutcome::Children {
            count,
        }) && ordinal < count,
    }
}

/// Record `j` of the block `block`, whose first record has index `base` in
/// the tree, hangs on an earlier record of the block, one recursion level
/// above it.
pub open spec fn hangs_within(block: Seq<BranchRecord>, base: nat, j: int) -> bool {
    parent_of(block[j]) matches Some(p) && base <= p < base + j && block[p
        - base].state.recursion_count + 1 == block[j].state.recursion_count && grown_from(
        block[p - base],
        block[j],
        base + j - p,
    )
}

/// Every record of the block but the first hangs on an earlier record of the
/// block.
pub open spec fn linked(block: Seq<BranchRecord>, base: nat) -> bool {
    forall|j: int| 1 <= j < block.len() ==> #[trigger] hangs_within(block, base, j)
}

/// Record `j` of a block of children hangs on the parent of them all, at the
/// recursion level of the children, or on an earlier record of the block.
pub open spec fn hangs_below(
    block: Seq<BranchRecord>,
    base: nat,
    parent: nat,
    count: nat,
    level: nat,
    j: int,
) -> bool {
    ||| block[j].state.recursion_count == level && (block[j].state.placement matches Placement::Child {
        parent: on,
        ordinal,
        count: of,
    } && on == parent && of == count && ordinal < count)
    ||| hangs_within(block, base, j)
}

/// The record is one that the recursion writes for a state it can work on.
pub open spec fn sound_record(settings: TreeSettings, r: BranchRecord) -> bool {
    &&& valid_state(settings, r.state)
    &&& r.pointed == is_pointed(settings, r.state)
    &&& r.outcome == outcome_of(settings, r.state)
}

/// Every one of the records is sound.
pub open spec fn sound_records(settings: TreeSettings, records: Seq<BranchRecord>) -> bool {
    forall|i: int| 0 <= i < records.len() ==> sound_record(settings, #[trigger] records[i])
}

/// The records of a part of the tree that starts with a valid state are all
/// sound.
pub proof fn lemma_subtree_sound(
    settings: TreeSettings,
    state: BranchGenState,
    branch: nat,
    vertex: nat,
    leaf: nat,
)
    requires
        valid_state(settings, state),
    ensures
        sound_records(settings, subtree_records(settings, state, branch, vertex, leaf)),
    decreases settings.spec_levels() - state.recursion_count, 1nat, 0nat,
{
    let own = record_of(settings, state, vertex, leaf);
    let depth = state.recursion_count as nat;
    let all = subtree_records(settings, state, branch, vertex, leaf);
    match growth_of(settings, state.level as nat, depth) {
        Growth::Continue => {
            let next = continuation_state(state, branch);
            let tail = subtree_records(
                settings,
                next,
                branch + 1,
                vertex + own_vertices(state),
                leaf,
            );
            lemma_subtree_sound(settings, next, branch + 1, vertex + own_vertices(state), leaf);
            assert(all == seq![own] + tail);
            assert forall|i: int| 0 <= i < all.len() implies sound_record(
                settings,
                #[trigger] all[i],
            ) by {
                if i > 0 {
                    assert(all[i] == tail[i - 1]);
                }
            }
        },
        Growth::Leaves => {},
        Growth::Children => {
            let count = settings.spec_child_count(depth) as nat;
            let tail = children_records(
                settings,
                depth + 1,
                branch,
                count,
                count,
                branch + 1,
                vertex + own_vertices(state),
                leaf,
            );
            lemma_children_sound(
                settings,
                depth + 1,
                branch,
                count,
                count,
                branch + 1,
                vertex + own_vertices(state),
                leaf,
            );
            assert(all == seq![own] + tail);
            assert forall|i: int| 0 <= i < all.len() implies sound_record(
                settings,
                #[trigger] all[i],
            ) by {
                if i > 0 {
                    assert(all[i] == tail[i - 1]);
                }
            }
        },
    }
}

/// The records of the children of a branch, with all that hangs on them, are
/// all sound.
pub proof fn lemma_children_sound(
    settings: TreeSettings,
    level: nat,
    parent: nat,
    count: nat,
    n: nat,
    branch: nat,
    vertex: nat,
    leaf: nat,
)
    ensures
        sound_records(
            settings,
            children_records(settings, level, parent, count, n, branch, vertex, leaf),
        ),
    decreases settings.spec_levels() + 1 - level, 0nat, n,
{
    let all = children_records(settings, level, parent, count, n, branch, vertex, leaf);
    if n == 0 || level > settings.spec_levels() || level > 3 {
    } else {
        let before = (n - 1) as nat;
        let head = children_records(settings, level, parent, count, before, branch, vertex, leaf);
        let child = child_state(settings, level, parent, before, count);
        let b = branch + before * subtree_branches(settings, level, level);
        let v = vertex + before * subtree_vertices(
            settings,
            level,
            level,
            settings.spec_section_count(level),
            settings.spec_segment_count(level),
        );
        let l = leaf + before * subtree_leaf_vertices(settings, level, level);
        let tail = subtree_records(settings, child, b, v, l);
        lemma_children_sound(settings, level, parent, count, before, branch, vertex, leaf);
        lemma_subtree_sound(settings, child, b, v, l);
        assert(all == head + tail);
        assert forall|i: int| 0 <= i < all.len() implies sound_record(
            settings,
            #[trigger] all[i],
        ) by {
            if i < head.len() {
                assert(all[i] == head[i]);
            } else {
                assert(all[i] == tail[i - head.len()]);
            }
        }
    }
}

/// Every record of the tree that the settings describe is sound.
pub proof fn lemma_tree_is_sound(settings: TreeSettings)
    ensures
        sound_records(settings, tree_records(settings)),
{
    lemma_subtree_sound(settings, trunk_state(settings), 0, 0, 0);
}

/// A part of the tree has as many records as branches, and starts with the
/// record of its first branch.
pub proof fn lemma_subtree_len(
    settings: TreeSettings,
    state: BranchGenState,
    branch: nat,
    vertex: nat,
    leaf: nat,
)
    requires
        valid_state(settings, state),
    ensures
        subtree_records(settings, state, branch, vertex, leaf).len() == state_branches(
            settings,
            state,
        ),
        subtree_records(settings, state, branch, vertex, leaf)[0] == record_of(
            settings,
            state,
            vertex,
            leaf,
        ),
    decreases settings.spec_levels() - state.recursion_count, 1nat, 0nat,
{
    let depth = state.recursion_count as nat;
    match growth_of(settings, state.level as nat, depth) {
        Growth::Continue => {
            lemma_subtree_len(
                settings,
                continuation_state(state, branch),
                branch + 1,
                vertex + own_vertices(state),
                leaf,
            );
        },
        Growth::Leaves => {},
        Growth::Children => {
            let count = settings.spec_child_count(depth) as nat;
            lemma_children_len(
                settings,
                depth + 1,
                branch,
                count,
                count,
                branch + 1,
                vertex + own_vertices(state),
                leaf,
            );
        },
    }
}

/// The first `n` children of a branch have `n` times the records of one.
pub proof fn lemma_children_len(
    settings: TreeSettings,
    level: nat,
    parent: nat,
    count: nat,
    n: nat,
    branch: nat,
    vertex: nat,
    leaf: nat,
)
    requires
        level <= settings.spec_levels(),
    ensures
        children_records(settings, level, parent, count, n, branch, vertex, leaf).len() == n
            * subtree_branches(settings, level, level),
    decreases settings.spec_levels() + 1 - level, 0nat, n,
{
    let per = subtree_branches(settings, level, level);
    if n > 0 {
        let before = (n - 1) as nat;
        lemma_children_len(settings, level, parent, count, before, branch, vertex, leaf);
        lemma_subtree_len(
            settings,
            child_state(settings, level, parent, before, count),
            branch + before * per,
            vertex + before * subtree_vertices(
                settings,
                level,
                level,
                settings.spec_section_count(level),
                settings.spec_segment_count(level),
            ),
            leaf + before * subtree_leaf_vertices(settings, level, level),
        );
        assert(n * per == before * per + per) by (nonlinear_arith)
            requires
                n == before + 1,
        ;
    } else {
        assert(n * per == 0) by (nonlinear_arith)
            requires
                n == 0,
        ;
    }
}

/// In a part of the tree whose branches can all be numbered in 32 bits,
/// every branch but the first hangs on an earlier branch of that part.
pub proof fn lemma_subtree_linked(
    settings: TreeSettings,
    state: BranchGenState,
    branch: nat,
    vertex: nat,
    leaf: nat,
)
    requires
        valid_state(settings, state),
        branch + state_branches(settings, state) <= u32::MAX + 1,
    ensures
        linked(subtree_records(settings, state, branch, vertex, leaf), branch),
    decreases settings.spec_levels() - state.recursion_count, 1nat, 0nat,
{
    let own = record_of(settings, state, vertex, leaf);
    let depth = state.recursion_count as nat;
    let all = subtree_records(settings, state, branch, vertex, leaf);
    match growth_of(settings, state.level as nat, depth) {
        Growth::Continue => {
            let next = continuation_state(state, branch);
            let tail = subtree_records(
                settings,
                next,
                branch + 1,
                vertex + own_vertices(state),
                leaf,
            );
            lemma_subtree_len(settings, next, branch + 1, vertex + own_vertices(state), leaf);
            lemma_subtree_linked(settings, next, branch + 1, vertex + own_vertices(state), leaf);
            assert(all == seq![own] + tail);
            assert forall|j: int| 1 <= j < all.len() implies #[trigger] hangs_within(
                all,
                branch,
                j,
            ) by {
                assert(all[j] == tail[j - 1]);
                if j == 1 {
                    assert(parent_of(all[j]) == Some(branch));
                    assert(all[0] == own);
                } else {
                    assert(hangs_within(tail, branch + 1, j - 1));
                    let p = parent_of(tail[j - 1])->0;
                    assert(all[p - branch] == tail[p - (branch + 1)]);
                }
            }
        },
        Growth::Leaves => {},
        Growth::Children => {
            let count = settings.spec_child_count(depth) as nat;
            let tail = children_records(
                settings,
                depth + 1,
                branch,
                count,
                count,
                branch + 1,
                vertex + own_vertices(state),
                leaf,
            );
            lemma_children_linked(
                settings,
                depth + 1,
                branch,
                count,
                count,
                branch + 1,
                vertex + own_vertices(state),
                leaf,
            );
            assert(all == seq![own] + tail);
            assert forall|j: int| 1 <= j < all.len() implies #[trigger] hangs_within(
                all,
                branch,
                j,
            ) by {
                assert(all[j] == tail[j - 1]);
                assert(all[0] == own);
                assert(hangs_below(tail, branch + 1, branch, count, depth + 1, j - 1));
                if hangs_within(tail, branch + 1, j - 1) {
                    let p = parent_of(tail[j - 1])->0;
                    assert(all[p - branch] == tail[p - (branch + 1)]);
                }
            }
        },
    }
}

/// Among the first `n` children of a branch and all that hangs on them,
/// every branch hangs on the parent or on an earlier branch among them.
pub proof fn lemma_children_linked(
    settings: TreeSettings,
    level: nat,
    parent: nat,
    count: nat,
    n: nat,
    branch: nat,
    vertex: nat,
    leaf: nat,
)
    requires
        1 <= level <= settings.spec_levels(),
        n <= count <= u8::MAX,
        parent < branch,
        branch + n * subtree_branches(settings, level, level) <= u32::MAX + 1,
    ensures
        forall|j: int|
            0 <= j < children_records(
                settings,
                level,
                parent,
                count,
                n,
                branch,
                vertex,
                leaf,
            ).len() ==> #[trigger] hangs_below(
                children_records(settings, level, parent, count, n, branch, vertex, leaf),
                branch,
                parent,
                count,
                level,
                j,
            ),
    decreases settings.spec_levels() + 1 - level, 0nat, n,
{
    let per = subtree_branches(settings, level, level);
    let all = children_records(settings, level, parent, count, n, branch, vertex, leaf);
    if n > 0 {
        let before = (n - 1) as nat;
        let head = children_records(settings, level, parent, count, before, branch, vertex, leaf);
        let child = child_state(settings, level, parent, before, count);
        let b = branch + before * per;
        let v = vertex + before * subtree_vertices(
            settings,
            level,
            level,
            settings.spec_section_count(level),
            settings.spec_segment_count(level),
        );
        let l = leaf + before * subtree_leaf_vertices(settings, level, level);
        let tail = subtree_records(settings, child, b, v, l);
        assert(n * per == before * per + per) by (nonlinear_arith)
            requires
                n == before + 1,
        ;
        assert(0 <= before * per) by (nonlinear_arith)
            requires
                0 <= before,
                0 <= per,
        ;
        lemma_children_len(settings, level, parent, count, before, branch, vertex, leaf);
        lemma_children_linked(settings, level, parent, count, before, branch, vertex, leaf);
        lemma_subtree_len(settings, child, b, v, l);
        lemma_subtree_linked(settings, child, b, v, l);
        assert(all == head + tail);
        assert forall|j: int| 0 <= j < all.len() implies #[trigger] hangs_below(
            all,
            branch,
            parent,
            count,
            level,
            j,
        ) by {
            if j < head.len() {
                assert(all[j] == head[j]);
                assert(hangs_below(head, branch, parent, count, level, j));
                if hangs_within(head, branch, j) {
                    let p = parent_of(head[j])->0;
                    assert(all[p - branch] == head[p - branch]);
                }
            } else {
                let k = j - head.len();
                assert(all[j] == tail[k]);
                if k == 0 {
                    assert(tail[0].state == child);
                } else {
                    assert(hangs_within(tail, b, k));
                    let p = parent_of(tail[k])->0;
                    assert(all[p - branch] == tail[p - b]);
                }
            }
        }
    }
}

/// The recursion is never more than `levels + 1` calls deep: the first piece
/// of the trunk is built at depth 1, every other branch one call deeper than
/// the branch it hangs on, and no branch deeper than `levels + 1`.
pub proof fn lemma_call_depth(settings: TreeSettings, i: int)
    requires
        tree_records(settings).len() <= u32::MAX,
        0 <= i < tree_records(settings).len(),
    ensures
        call_depth(tree_records(settings), i) == tree_records(settings)[i].state.recursion_count
            + 1,
        call_depth(tree_records(settings), i) <= settings.spec_levels() + 1,
    decreases i,
{
    let all = tree_records(settings);
    let trunk = trunk_state(settings);
    lemma_subtree_len(settings, trunk, 0, 0, 0);
    lemma_subtree_linked(settings, trunk, 0, 0, 0);
    lemma_tree_is_sound(settings);
    assert(sound_record(settings, all[i]));
    if i > 0 {
        assert(hangs_within(all, 0, i));
        let p = parent_of(all[i])->0;
        lemma_call_depth(settings, p as int);
    }
}

} // verus!
