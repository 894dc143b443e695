//! How many random numbers the host draws for each branch, and when.
//!
//! The host shapes a tree with numbers that it draws from a seeded source,
//! one after the other. Which draw goes where depends on the branches alone:
//! the host walks the records in order, and for each branch it draws twice
//! per section while it bends the branch, then once for the size of the
//! leaves if the branch ends in leaves, or once for all its children together
//! and once more for each of them if it has any.

use vstd::prelude::*;
use crate::mesh::{BranchOutcome, BranchRecord};

verus! {

/// Number of draws that the host makes for the branch of this record.
pub open spec fn draws_of(r: BranchRecord) -> nat {
    2 * r.state.sections as nat + match r.outcome {
        BranchOutcome::Continue => 0,
        BranchOutcome::Leaves { .. } => 1,
        BranchOutcome::Children { count } => if count > 0 {
            count as nat + 1
        } else {
            0
        },
    }
}

/// Number of draws that the host has made when it comes to branch `i`.
pub open spec fn draws_before(records: Seq<BranchRecord>, i: int) -> nat
    decreases i,
{
    if i <= 0 {
        0
    } else {
        draws_before(records, i - 1) + draws_of(records[i - 1])
    }
}

/// Number of draws that the host makes for the branch of this record.
pub fn draw_count(record: &BranchRecord) -> (n: u32)
    ensures
        n == draws_of(*record),
        n <= 766,
{
    let bending: u32 = 2 * record.state.sections as u32;
    match record.outcome {
        BranchOutcome::Continue => bending,
        BranchOutcome::Leaves { .. } => bending + 1,
        BranchOutcome::Children { count } => if count > 0 {
            bending + count as u32 + 1
        } else {
            bending
        },
    }
}

/// For each branch the number of draws made before the host comes to it,
/// and at the end the number of draws made for the whole tree.
pub fn draw_schedule(records: &Vec<BranchRecord>) -> (starts: Vec<u64>)
    requires
        records@.len() <= u32::MAX,
    ensures
        starts@.len() == records@.len() + 1,
        forall|i: int| 0 <= i <= records@.len() ==> #[trigger] starts@[i] == draws_before(records@, i),
{
    let mut starts: Vec<u64> = Vec::new();
    let mut total: u64 = 0;
    starts.push(total);
    let mut i: usize = 0;
    while i < records.len()
        invariant
            i <= records@.len() <= u32::MAX,
            total == draws_before(records@, i as int),
            total <= 766 * i,
            starts@.len() == i + 1,
            forall|k: int| 0 <= k <= i ==> #[trigger] starts@[k] == draws_before(records@, k),
        decreases records@.len() - i,
    {
        let n: u32 = draw_count(&records[i]);
        total = total + n as u64;
        starts.push(total);
        i = i + 1;
    }
    starts
}

} // verus!
