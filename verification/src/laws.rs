//! What holds of the tracker whatever it is asked to do.
//!
//! Each law is stated over the model that the tracker's contracts speak of,
//! and proved. None of them constrains a caller: they are consequences, not
//! rules.

use vstd::prelude::*;
use crate::completion::promise_detected;
use crate::model::{
    after_increment, after_increments, after_register, after_remove, after_update_session_id,
    apply, apply_all, completion_promise_of, continues_after_increment, touching, LoopOp,
    LoopTable, WorkspaceId,
};
use crate::state::{ExecutorProfileIdView, LoopStateView};

verus! {

/// A workspace without a loop on record is inert: it has no state and no
/// marker, counting an iteration for it answers "stop", and counting,
/// moving it to another session or dropping it leaves the table as it was.
pub proof fn law_unregistered_workspace_is_inert(
    table: LoopTable,
    id: WorkspaceId,
    session_id: Seq<char>,
)
    requires
        !table.contains_key(id),
    ensures
        table.get(id) is None,
        completion_promise_of(table, id) is None,
        !continues_after_increment(table, id),
        after_increment(table, id) == table,
        after_update_session_id(table, id, session_id) == table,
        after_remove(table, id) == table,
{
    assert(table.remove(id) =~= table);
}

/// Registering puts exactly the given loop on record, at iteration 0, in
/// place of whatever the workspace had; no other workspace is touched.
pub proof fn law_register_starts_fresh_loop(
    table: LoopTable,
    id: WorkspaceId,
    max_iterations: nat,
    completion_promise: Option<Seq<char>>,
    original_prompt: Seq<char>,
    session_id: Seq<char>,
    executor_profile_id: ExecutorProfileIdView,
    working_dir: Option<Seq<char>>,
)
    ensures
        ({
            let registered = after_register(
                table,
                id,
                max_iterations,
                completion_promise,
                original_prompt,
                session_id,
                executor_profile_id,
                working_dir,
            );
            &&& registered.contains_key(id)
            &&& registered[id].iteration == 0
            &&& registered[id].max_iterations == max_iterations
            &&& registered[id].completion_promise == completion_promise
            &&& registered[id].original_prompt == original_prompt
            &&& registered[id].session_id == session_id
            &&& registered[id].executor_profile_id == executor_profile_id
            &&& registered[id].working_dir == working_dir
            &&& completion_promise_of(registered, id) == completion_promise
            &&& registered[id].can_continue() == (max_iterations > 0)
            &&& forall|other: WorkspaceId|
                other != id ==> registered.get(other) == #[trigger] table.get(other)
        }),
{
}

/// Counting iterations in a row only adds to the count: after `calls` of
/// them the loop is still on record, its count is `calls` higher and nothing
/// else of it has changed.
pub proof fn law_increments_add_up(table: LoopTable, id: WorkspaceId, calls: nat)
    requires
        table.contains_key(id),
    ensures
        after_increments(table, id, calls).contains_key(id),
        after_increments(table, id, calls)[id] == (LoopStateView {
            iteration: table[id].iteration + calls,
            ..table[id]
        }),
    decreases calls,
{
    if calls > 0 {
        law_increments_add_up(table, id, (calls - 1) as nat);
    }
}

/// A freshly registered loop with a budget of `max_iterations` is told to go
/// on by each of the first `max_iterations - 1` counts and to stop by every
/// later one: the `calls`-th count in a row leaves the loop at iteration
/// `calls` and answers whether `calls` is below the budget.
pub proof fn law_fresh_loop_stops_at_budget(
    table: LoopTable,
    id: WorkspaceId,
    max_iterations: nat,
    completion_promise: Option<Seq<char>>,
    original_prompt: Seq<char>,
    session_id: Seq<char>,
    executor_profile_id: ExecutorProfileIdView,
    working_dir: Option<Seq<char>>,
    calls: nat,
)
    requires
        calls >= 1,
    ensures
        ({
            let registered = after_register(
                table,
                id,
                max_iterations,
                completion_promise,
                original_prompt,
                session_id,
                executor_profile_id,
                working_dir,
            );
            let before_last = after_increments(registered, id, (calls - 1) as nat);
            let after_last = after_increments(registered, id, calls);
            &&& after_last == after_increment(before_last, id)
            &&& after_last.contains_key(id)
            &&& after_last[id].iteration == calls
            &&& continues_after_increment(before_last, id) == (calls < max_iterations)
        }),
{
    let registered = after_register(
        table,
        id,
        max_iterations,
        completion_promise,
        original_prompt,
        session_id,
        executor_profile_id,
        working_dir,
    );
    law_increments_add_up(registered, id, (calls - 1) as nat);
    law_increments_add_up(registered, id, calls);
}

/// A count that the budget allowed stays within the budget: where a loop may
/// go on, counting one more iteration leaves its count at most at the budget.
/// Only counting on after the loop was told to stop takes it past.
pub proof fn law_allowed_count_stays_within_budget(table: LoopTable, id: WorkspaceId)
    requires
        table.contains_key(id),
        table[id].can_continue(),
    ensures
        after_increment(table, id)[id].iteration <= after_increment(table, id)[id].max_iterations,
        continues_after_increment(table, id) == (after_increment(table, id)[id].iteration
            < after_increment(table, id)[id].max_iterations),
{
}

/// Dropping a loop ends it: the workspace has no loop afterwards, whether it
/// had one or was just registered, and dropping it again changes nothing. No
/// other workspace is touched.
pub proof fn law_remove_ends_loop(table: LoopTable, id: WorkspaceId)
    ensures
        !after_remove(table, id).contains_key(id),
        after_remove(table, id).get(id) is None,
        after_remove(after_remove(table, id), id) == after_remove(table, id),
        forall|other: WorkspaceId|
            other != id ==> after_remove(table, id).get(other) == #[trigger] table.get(other),
{
    assert(table.remove(id).remove(id) =~= table.remove(id));
}

/// Moving a loop to another session changes its session and nothing else:
/// not its counters, its marker, its prompt, its profile or its directory,
/// and not any other workspace.
pub proof fn law_update_session_id_changes_session_only(
    table: LoopTable,
    id: WorkspaceId,
    session_id: Seq<char>,
)
    requires
        table.contains_key(id),
    ensures
        ({
            let updated = after_update_session_id(table, id, session_id);
            &&& updated.contains_key(id)
            &&& updated[id].session_id == session_id
            &&& updated[id].iteration == table[id].iteration
            &&& updated[id].max_iterations == table[id].max_iterations
            &&& updated[id].completion_promise == table[id].completion_promise
            &&& updated[id].original_prompt == table[id].original_prompt
            &&& updated[id].executor_profile_id == table[id].executor_profile_id
            &&& updated[id].working_dir == table[id].working_dir
            &&& forall|other: WorkspaceId|
                other != id ==> updated.get(other) == #[trigger] table.get(other)
        }),
{
}

/// While a loop stays on record and is not registered anew, its count never
/// goes down, and its budget, marker, prompt, profile and directory stay as
/// they were registered.
pub proof fn law_loop_keeps_what_was_registered(table: LoopTable, op: LoopOp, id: WorkspaceId)
    requires
        table.contains_key(id),
        apply(table, op).contains_key(id),
        !(op.registers() && op.workspace() == id),
    ensures
        apply(table, op)[id].iteration >= table[id].iteration,
        apply(table, op)[id].max_iterations == table[id].max_iterations,
        apply(table, op)[id].completion_promise == table[id].completion_promise,
        apply(table, op)[id].original_prompt == table[id].original_prompt,
        apply(table, op)[id].executor_profile_id == table[id].executor_profile_id,
        apply(table, op)[id].working_dir == table[id].working_dir,
{
}

/// A call changes at most the workspace that it names.
pub proof fn law_call_touches_one_workspace(table: LoopTable, op: LoopOp, other: WorkspaceId)
    requires
        op.workspace() != other,
    ensures
        apply(table, op).get(other) == table.get(other),
{
}

/// What a call makes of a workspace depends on what was on record for that
/// workspace, and on nothing else in the table.
pub proof fn law_call_reads_one_workspace(first: LoopTable, second: LoopTable, op: LoopOp)
    requires
        first.get(op.workspace()) == second.get(op.workspace()),
    ensures
        apply(first, op).get(op.workspace()) == apply(second, op).get(op.workspace()),
        op is IncrementAndCheck ==> continues_after_increment(first, op.workspace())
            == continues_after_increment(second, op.workspace()),
{
}

/// Two calls that name different workspaces can be made in either order: the
/// table ends up the same.
pub proof fn law_calls_for_different_workspaces_commute(
    table: LoopTable,
    one: LoopOp,
    other: LoopOp,
)
    requires
        one.workspace() != other.workspace(),
    ensures
        apply(apply(table, one), other) == apply(apply(table, other), one),
{
    assert(apply(apply(table, one), other) =~= apply(apply(table, other), one));
}

/// Workspaces do not interfere. However calls for different workspaces are
/// interleaved, what ends up on record for a workspace is what its own calls,
/// made alone and in their order, make of what was on record for it.
pub proof fn law_workspaces_do_not_interfere(
    first: LoopTable,
    second: LoopTable,
    ops: Seq<LoopOp>,
    id: WorkspaceId,
)
    requires
        first.get(id) == second.get(id),
    ensures
        apply_all(first, ops).get(id) == apply_all(second, touching(ops, id)).get(id),
    decreases ops.len(),
{
    if ops.len() > 0 {
        let earlier = ops.drop_last();
        let last = ops.last();
        law_workspaces_do_not_interfere(first, second, earlier, id);
        if last.workspace() == id {
            let own = touching(earlier, id);
            assert(own.push(last).drop_last() =~= own);
            assert(own.push(last).last() == last);
            law_call_reads_one_workspace(apply_all(first, earlier), apply_all(second, own), last);
        } else {
            law_call_touches_one_workspace(apply_all(first, earlier), last, id);
        }
    }
}

/// Two interleavings that hold the same calls for a workspace, in the same
/// order, leave the same on record for it.
pub proof fn law_interleavings_agree(
    table: LoopTable,
    one: Seq<LoopOp>,
    other: Seq<LoopOp>,
    id: WorkspaceId,
)
    requires
        touching(one, id) == touching(other, id),
    ensures
        apply_all(table, one).get(id) == apply_all(table, other).get(id),
{
    law_workspaces_do_not_interfere(table, table, one, id);
    law_workspaces_do_not_interfere(table, table, other, id);
}

/// An empty marker is found in no output.
pub proof fn law_empty_marker_is_never_detected(output: Seq<char>)
    ensures
        !promise_detected(output, Seq::<char>::empty()),
{
}

} // verus!
