//! The mathematical model of the tracker: a map from workspace to loop state,
//! and what each operation makes of it.
//!
//! The executable tracker promises, operation by operation, that it moves its
//! view as the functions of this module say. Everything that holds of these
//! functions therefore holds of the tracker.

use vstd::prelude::*;
use crate::state::{ExecutorProfileIdView, LoopStateView};

verus! {

/// Identifies a workspace: the 128-bit value of its UUID.
pub type WorkspaceId = u128;

/// The loops on record: at most one state per workspace.
pub type LoopTable = Map<WorkspaceId, LoopStateView>;

/// The table after a loop was registered for `id`: the workspace starts over
/// at iteration 0, whatever was on record for it before.
pub open spec fn after_register(
    table: LoopTable,
    id: WorkspaceId,
    max_iterations: nat,
    completion_promise: Option<Seq<char>>,
    original_prompt: Seq<char>,
    session_id: Seq<char>,
    executor_profile_id: ExecutorProfileIdView,
    working_dir: Option<Seq<char>>,
) -> LoopTable {
    table.insert(
        id,
        LoopStateView::fresh(
            max_iterations,
            completion_promise,
            original_prompt,
            session_id,
            executor_profile_id,
            working_dir,
        ),
    )
}

/// The table after the loop of `id` moved to the session `session_id`. Without
/// a loop on record nothing changes.
pub open spec fn after_update_session_id(
    table: LoopTable,
    id: WorkspaceId,
    session_id: Seq<char>,
) -> LoopTable {
    if table.contains_key(id) {
        table.insert(id, table[id].with_session_id(session_id))
    } else {
        table
    }
}

/// The table after one more iteration was counted for `id`. Without a loop on
/// record nothing changes.
pub open spec fn after_increment(table: LoopTable, id: WorkspaceId) -> LoopTable {
    if table.contains_key(id) {
        table.insert(id, table[id].incremented())
    } else {
        table
    }
}

/// Whether the loop of `id` may go on once one more iteration is counted:
/// there is a loop, and the new count is still below its budget.
pub open spec fn continues_after_increment(table: LoopTable, id: WorkspaceId) -> bool {
    table.contains_key(id) && table[id].incremented().can_continue()
}

/// The table after the loop of `id` was dropped.
pub open spec fn after_remove(table: LoopTable, id: WorkspaceId) -> LoopTable {
    table.remove(id)
}

/// The completion marker on record for `id`: none without a loop, and none
/// for a loop that was registered without one.
pub open spec fn completion_promise_of(table: LoopTable, id: WorkspaceId) -> Option<Seq<char>> {
    if table.contains_key(id) {
        table[id].completion_promise
    } else {
        None
    }
}

/// The table after `calls` iterations in a row were counted for `id`.
pub open spec fn after_increments(table: LoopTable, id: WorkspaceId, calls: nat) -> LoopTable
    decreases calls,
{
    if calls == 0 {
        table
    } else {
        after_increment(after_increments(table, id, (calls - 1) as nat), id)
    }
}

/// One call that changes the tracker, with its arguments.
pub enum LoopOp {
    Register {
        id: WorkspaceId,
        max_iterations: nat,
        completion_promise: Option<Seq<char>>,
        original_prompt: Seq<char>,
        session_id: Seq<char>,
        executor_profile_id: ExecutorProfileIdView,
        working_dir: Option<Seq<char>>,
    },
    UpdateSessionId { id: WorkspaceId, session_id: Seq<char> },
    IncrementAndCheck { id: WorkspaceId },
    Remove { id: WorkspaceId },
}

impl LoopOp {
    /// The workspace that the call names.
    pub open spec fn workspace(self) -> WorkspaceId {
        match self {
            LoopOp::Register { id, .. } => id,
            LoopOp::UpdateSessionId { id, .. } => id,
            LoopOp::IncrementAndCheck { id } => id,
            LoopOp::Remove { id } => id,
        }
    }

    /// Whether the call starts a loop over.
    pub open spec fn registers(self) -> bool {
        self is Register
    }
}

/// The table after the call `op`.
pub open spec fn apply(table: LoopTable, op: LoopOp) -> LoopTable {
    match op {
        LoopOp::Register {
            id,
            max_iterations,
            completion_promise,
            original_prompt,
            session_id,
            executor_profile_id,
            working_dir,
        } => after_register(
            table,
            id,
            max_iterations,
            completion_promise,
            original_prompt,
            session_id,
            executor_profile_id,
            working_dir,
        ),
        LoopOp::UpdateSessionId { id, session_id } => after_update_session_id(
            table,
            id,
            session_id,
        ),
        LoopOp::IncrementAndCheck { id } => after_increment(table, id),
        LoopOp::Remove { id } => after_remove(table, id),
    }
}

/// The table after the calls `ops`, made one after the other in their order.
pub open spec fn apply_all(table: LoopTable, ops: Seq<LoopOp>) -> LoopTable
    decreases ops.len(),
{
    if ops.len() == 0 {
        table
    } else {
        apply(apply_all(table, ops.drop_last()), ops.last())
    }
}

/// Those of the calls `ops` that name the workspace `id`, in their order.
pub open spec fn touching(ops: Seq<LoopOp>, id: WorkspaceId) -> Seq<LoopOp>
    decreases ops.len(),
{
    if ops.len() == 0 {
        ops
    } else if ops.last().workspace() == id {
        touching(ops.drop_last(), id).push(ops.last())
    } else {
        touching(ops.drop_last(), id)
    }
}

} // verus!
