//! Rounding of work sizes to whole workgroups.
//!
//! Every stage of the simulation is dispatched in workgroups of a fixed size. A stage that has
//! `n` work items is dispatched with the least whole number of workgroups that covers `n`; the
//! invocations past `n` find nothing to do.

use vstd::prelude::*;

verus! {

/// Invocations in one workgroup of the simulation kernel.
pub const WORKGROUP_SIZE: u64 = 64;

/// `invocations` fills a whole number of workgroups.
pub open spec fn whole_groups(invocations: int) -> bool {
    invocations % (WORKGROUP_SIZE as int) == 0
}

/// `invocations` is the smallest multiple of the workgroup size that is no less than
/// `work_items`.
pub open spec fn least_cover(invocations: int, work_items: int) -> bool {
    &&& whole_groups(invocations)
    &&& invocations >= work_items
    &&& forall|other: int| #[trigger]
        whole_groups(other) && other >= work_items ==> invocations <= other
}

/// Number of workgroups dispatched for `work_items` work items.
pub open spec fn groups_covering(work_items: int) -> int {
    (work_items + (WORKGROUP_SIZE as int - 1)) / (WORKGROUP_SIZE as int)
}

/// Number of invocations dispatched for `work_items` work items.
pub open spec fn invocations_covering(work_items: int) -> int {
    groups_covering(work_items) * (WORKGROUP_SIZE as int)
}

/// The dispatched invocation count is the smallest multiple of the workgroup size that is no
/// less than the number of work items.
pub proof fn lemma_invocations_covering_is_least(work_items: int)
    ensures
        least_cover(invocations_covering(work_items), work_items),
        invocations_covering(work_items) < work_items + WORKGROUP_SIZE,
{
    let covering: int = invocations_covering(work_items);
    assert forall|other: int| #[trigger] whole_groups(other) && other >= work_items implies covering
        <= other by {
        let groups: int = other / (WORKGROUP_SIZE as int);
        assert(other == WORKGROUP_SIZE * groups);
    }
}

/// The number of workgroups to dispatch for `work_items` work items.
pub fn group_count(work_items: u64) -> (groups: u64)
    ensures
        groups == groups_covering(work_items as int),
        groups * WORKGROUP_SIZE == invocations_covering(work_items as int),
{
    let full: u64 = work_items / WORKGROUP_SIZE;
    if work_items % WORKGROUP_SIZE == 0 {
        full
    } else {
        full + 1
    }
}

/// The number of invocations to dispatch for `work_items` work items: `work_items` rounded up
/// to the next multiple of the workgroup size.
pub fn invocation_count(work_items: u64) -> (invocations: u64)
    requires
        invocations_covering(work_items as int) <= u64::MAX,
    ensures
        invocations == invocations_covering(work_items as int),
        least_cover(invocations as int, work_items as int),
{
    proof {
        lemma_invocations_covering_is_least(work_items as int);
    }
    let groups: u64 = group_count(work_items);
    groups * WORKGROUP_SIZE
}

} // verus!
