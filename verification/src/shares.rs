//! The whole numbers behind the proportions of a branch: which share of
//! the trunk's length a piece gets, over how many pieces the trunk tapers,
//! and between which two rings of its parent a child sits.

use vstd::prelude::*;
use crate::enums::TreeType;
use crate::growth::valid_state;
use crate::mesh::{BranchGenState, Placement};
use crate::settings::TreeSettings;

verus! {

/// The sum of the whole numbers from 1 to `n`.
pub open spec fn triangular(n: nat) -> nat
    decreases n,
{
    if n == 0 {
        0
    } else {
        n + triangular((n - 1) as nat)
    }
}

/// A fraction of two whole numbers.
#[derive(Clone, Copy, Debug, PartialEq, Eq, Structural)]
pub struct Ratio {
    pub numerator: u32,
    pub denominator: u32,
}

/// Whether the branch is a piece of the trunk of a deciduous tree.
pub open spec fn is_trunk_piece(settings: TreeSettings, state: BranchGenState) -> bool {
    settings.tree_type == TreeType::Deciduous && state.level == 0
}

/// The share of its configured length that the branch gets.
///
/// The trunk of a deciduous tree is built from one piece per recursion depth,
/// and the pieces share the trunk's length so that lower pieces are longer:
/// the piece at depth `d` of a tree with `l` levels gets `l - d + 1` parts out
/// of `1 + 2 + ... + (l + 1)`. Every other branch has its whole length.
pub open spec fn length_share_of(settings: TreeSettings, state: BranchGenState) -> Ratio {
    if is_trunk_piece(settings, state) {
        Ratio {
            numerator: (settings.spec_levels() - state.recursion_count + 1) as u32,
            denominator: triangular(settings.spec_levels() + 1) as u32,
        }
    } else {
        Ratio { numerator: 1, denominator: 1 }
    }
}

/// Over how many pieces the branch spreads its taper: a trunk piece of a
/// deciduous tree is one of `levels + 1` that reach the configured taper
/// together, every other branch reaches it alone.
pub open spec fn taper_pieces_of(settings: TreeSettings, state: BranchGenState) -> nat {
    if is_trunk_piece(settings, state) {
        settings.spec_levels() + 1
    } else {
        1
    }
}

/// The sum of the whole numbers from 1 to `levels + 1`: the number of parts
/// into which the length of a deciduous trunk is divided.
pub fn target_pieces(settings: &TreeSettings) -> (pieces: u32)
    ensures
        pieces == triangular(settings.spec_levels() + 1),
        1 <= pieces <= 10,
{
    let levels: usize = settings.levels();
    let mut pieces: u32 = 0;
    let mut k: usize = 0;
    while k <= levels
        invariant
            k <= levels + 1,
            levels <= 3,
            pieces == triangular(k as nat),
            pieces <= 10,
        decreases levels + 1 - k,
    {
        proof {
            reveal_with_fuel(triangular, 5);
        }
        k = k + 1;
        pieces = pieces + k as u32;
    }
    proof {
        reveal_with_fuel(triangular, 5);
    }
    pieces
}

/// The share of its configured length that the branch gets.
pub fn length_share(settings: &TreeSettings, state: &BranchGenState) -> (share: Ratio)
    requires
        valid_state(*settings, *state),
    ensures
        share == length_share_of(*settings, *state),
        1 <= share.numerator <= share.denominator <= 10,
{
    proof {
        reveal_with_fuel(triangular, 5);
    }
    let deciduous: bool = match settings.tree_type {
        TreeType::Deciduous => true,
        TreeType::Evergreen => false,
    };
    if deciduous && state.level == 0 {
        let levels: usize = settings.levels();
        Ratio {
            numerator: (levels - state.recursion_count + 1) as u32,
            denominator: target_pieces(settings),
        }
    } else {
        Ratio { numerator: 1, denominator: 1 }
    }
}

/// Over how many pieces the branch spreads its taper.
pub fn taper_pieces(settings: &TreeSettings, state: &BranchGenState) -> (pieces: u32)
    ensures
        pieces == taper_pieces_of(*settings, *state),
        1 <= pieces <= 4,
{
    let deciduous: bool = match settings.tree_type {
        TreeType::Deciduous => true,
        TreeType::Evergreen => false,
    };
    if deciduous && state.level == 0 {
        settings.levels() as u32 + 1
    } else {
        1
    }
}

/// The piece of a deciduous trunk at recursion depth `depth`.
pub open spec fn trunk_piece(settings: TreeSettings, depth: nat) -> BranchGenState {
    BranchGenState {
        level: 0,
        recursion_count: depth as usize,
        sections: settings.spec_section_count(0),
        segments: settings.spec_segment_count(0),
        placement: if depth == 0 {
            Placement::Root
        } else {
            Placement::Continuation { of: (depth - 1) as u32 }
        },
    }
}

/// The sum of the numerators of the shares of the trunk pieces at the depths
/// below `n`.
pub open spec fn shares_below(settings: TreeSettings, n: nat) -> nat
    decreases n,
{
    if n == 0 {
        0
    } else {
        shares_below(settings, (n - 1) as nat) + length_share_of(
            settings,
            trunk_piece(settings, (n - 1) as nat),
        ).numerator as nat
    }
}

/// The shares of the first `n` trunk pieces and the numbers from 1 to
/// `levels + 1 - n` add up to the numbers from 1 to `levels + 1`.
proof fn lemma_shares_below(settings: TreeSettings, n: nat)
    requires
        settings.tree_type == TreeType::Deciduous,
        n <= settings.spec_levels() + 1,
    ensures
        shares_below(settings, n) + triangular((settings.spec_levels() + 1 - n) as nat)
            == triangular(settings.spec_levels() + 1),
    decreases n,
{
    if n > 0 {
        lemma_shares_below(settings, (n - 1) as nat);
        let levels = settings.spec_levels();
        assert(triangular((levels + 1 - (n - 1)) as nat) == (levels + 1 - (n - 1)) + triangular(
            (levels + 1 - n) as nat,
        ));
    }
}

/// The lengths of the pieces of a deciduous trunk add up to the length of
/// the trunk: over the depths from 0 to `levels`, the numerators of the
/// pieces' shares sum to the denominator that all of them have.
pub proof fn lemma_trunk_shares_add_up(settings: TreeSettings, depth: nat)
    requires
        settings.tree_type == TreeType::Deciduous,
        depth <= settings.spec_levels(),
    ensures
        shares_below(settings, settings.spec_levels() + 1) == length_share_of(
            settings,
            trunk_piece(settings, depth),
        ).denominator,
{
    lemma_shares_below(settings, settings.spec_levels() + 1);
    reveal_with_fuel(triangular, 5);
}

/// The two rings of a parent between which a child sits.
///
/// `position` is the whole part of the child's place along the parent,
/// counted in sections, and `rings` the number of the parent's rings. The
/// child sits between ring `lower` and ring `upper`: ring `position` and the
/// one after it, both held back to the last ring.
pub fn bracketing_sections(position: usize, rings: usize) -> (pair: (usize, usize))
    requires
        rings >= 1,
    ensures
        pair.0 == (if position < rings { position as int } else { rings - 1 }),
        pair.1 == (if pair.0 + 1 < rings { pair.0 + 1 } else { rings - 1 }),
        pair.0 <= pair.1 < rings,
{
    let last: usize = rings - 1;
    let lower: usize = if position < rings { position } else { last };
    let upper: usize = if lower < last { lower + 1 } else { last };
    (lower, upper)
}

} // verus!
