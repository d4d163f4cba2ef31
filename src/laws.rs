//! Properties that relate several operations of the store, stated over the
//! abstract state that the operations' own contracts speak of.

use vstd::prelude::*;

use crate::error::ErrorKind;
use crate::store::{
    after_assign, after_delete_project, after_delete_task, after_delete_user, after_unassign,
    assign_error, issues_id, unassign_error, ManagerView,
};

verus! {

/// Over any run of creations, whatever the entity types and however they are
/// interleaved, the issued ids strictly increase, so no id repeats.
pub proof fn lemma_ids_strictly_increase(states: Seq<ManagerView>, ids: Seq<u64>)
    requires
        states.len() == ids.len() + 1,
        forall|i: int| 0 <= i < ids.len() ==> #[trigger] issues_id(states[i], states[i + 1], ids[i]),
    ensures
        forall|i: int, j: int| 0 <= i < j < ids.len() ==> ids[i] < ids[j],
{
    assert forall|i: int, j: int| 0 <= i < j < ids.len() implies ids[i] < ids[j] by {
        lemma_counter_after_steps(states, ids, i);
        lemma_counter_after_steps(states, ids, j);
        assert(issues_id(states[i], states[i + 1], ids[i]));
        assert(issues_id(states[j], states[j + 1], ids[j]));
    }
}

proof fn lemma_counter_after_steps(states: Seq<ManagerView>, ids: Seq<u64>, k: int)
    requires
        states.len() == ids.len() + 1,
        forall|i: int| 0 <= i < ids.len() ==> #[trigger] issues_id(states[i], states[i + 1], ids[i]),
        0 <= k <= ids.len(),
    ensures
        states[k].next_id == states[0].next_id + k,
    decreases k,
{
    if k > 0 {
        lemma_counter_after_steps(states, ids, k - 1);
        let i = k - 1;
        assert(issues_id(states[i], states[i + 1], ids[i]));
        assert(i + 1 == k);
    }
}

/// After an entity is deleted, looking its id up in the same repository finds nothing.
pub proof fn lemma_get_after_delete(s: ManagerView, id: u64)
    ensures
        !after_delete_project(s, id).projects.contains_key(id),
        !after_delete_task(s, id).tasks.contains_key(id),
        !after_delete_user(s, id).users.contains_key(id),
{
}

/// Assigning the same pair twice succeeds once; the second attempt fails with
/// `InvalidInput` and leaves the state as the first one left it.
pub proof fn lemma_assign_twice(s: ManagerView, task_id: u64, user_id: u64)
    requires
        s.tasks.contains_key(task_id),
        s.users.contains_key(user_id),
        !s.assignments.contains((user_id, task_id)),
    ensures
        assign_error(s, task_id, user_id) is None,
        assign_error(after_assign(s, task_id, user_id), task_id, user_id) == Some(
            ErrorKind::InvalidInput,
        ),
        after_assign(after_assign(s, task_id, user_id), task_id, user_id) == after_assign(
            s,
            task_id,
            user_id,
        ),
{
}

/// Assigning a task to a user fails with `NotFound`, and stores nothing, when
/// the task or the user is missing.
pub proof fn lemma_assign_needs_both(s: ManagerView, task_id: u64, user_id: u64)
    requires
        !s.tasks.contains_key(task_id) || !s.users.contains_key(user_id),
    ensures
        assign_error(s, task_id, user_id) == Some(ErrorKind::NotFound),
        after_assign(s, task_id, user_id) == s,
{
}

/// Unassigning removes exactly the pair `(user_id, task_id)`, every other pair
/// stays, and a second attempt fails with `NotFound`.
pub proof fn lemma_unassign_exact(s: ManagerView, task_id: u64, user_id: u64)
    requires
        s.assignments.contains((user_id, task_id)),
    ensures
        unassign_error(s, task_id, user_id) is None,
        !after_unassign(s, task_id, user_id).assignments.contains((user_id, task_id)),
        forall|k: (u64, u64)|
            k != (user_id, task_id) ==> (#[trigger] after_unassign(
                s,
                task_id,
                user_id,
            ).assignments.contains(k) <==> s.assignments.contains(k)),
        unassign_error(after_unassign(s, task_id, user_id), task_id, user_id) == Some(
            ErrorKind::NotFound,
        ),
{
}

} // verus!
