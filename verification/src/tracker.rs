//! The tracker: the loops on record, keyed by workspace.
//!
//! The tracker is a plain value. Sharing it between tasks is the caller's
//! business: every operation that changes it takes `&mut self`, so whatever
//! lock guards it serialises the changes.

use std::collections::hash_map::Entry;
use std::collections::HashMap;
use vstd::prelude::*;
use vstd::std_specs::hash::*;
use crate::model::{
    after_increment, after_register, after_remove, after_update_session_id,
    completion_promise_of, continues_after_increment, LoopTable, WorkspaceId,
};
use crate::state::{optional_text, CopilotLoopState, ExecutorProfileId};

verus! {

broadcast use group_hash_axioms;

/// Keeps the state of the automated loops, one per workspace.
#[derive(Debug)]
pub struct CopilotLoopTracker {
    states: HashMap<WorkspaceId, CopilotLoopState>,
}

impl View for CopilotLoopTracker {
    type V = LoopTable;

    closed spec fn view(&self) -> LoopTable {
        self.states@.map_values(|state: CopilotLoopState| state@)
    }
}

impl CopilotLoopTracker {
    /// A tracker with no loop on record.
    pub fn new() -> (tracker: CopilotLoopTracker)
        ensures
            tracker@ == LoopTable::empty(),
    {
        let tracker = CopilotLoopTracker { states: HashMap::new() };
        assert(tracker@ =~= LoopTable::empty());
        tracker
    }

    /// Puts a loop for `workspace_id` on record, at iteration 0. A loop that
    /// was on record for the workspace is replaced.
    pub fn register(
        &mut self,
        workspace_id: WorkspaceId,
        max_iterations: u32,
        completion_promise: Option<String>,
        original_prompt: String,
        session_id: String,
        executor_profile_id: ExecutorProfileId,
        working_dir: Option<String>,
    )
        ensures
            final(self)@ == after_register(
                old(self)@,
                workspace_id,
                max_iterations as nat,
                optional_text(completion_promise),
                original_prompt@,
                session_id@,
                executor_profile_id@,
                optional_text(working_dir),
            ),
    {
        let state = CopilotLoopState {
            iteration: 0,
            max_iterations,
            completion_promise,
            original_prompt,
            session_id,
            executor_profile_id,
            working_dir,
        };
        self.states.insert(workspace_id, state);
        assert(self@ =~= old(self)@.insert(workspace_id, state@));
    }

    /// A copy of the state on record for `workspace_id`, if there is one.
    pub fn get(&self, workspace_id: &WorkspaceId) -> (snapshot: Option<CopilotLoopState>)
        ensures
            match snapshot {
                Some(state) => self@.contains_key(*workspace_id) && state@ == self@[*workspace_id],
                None => !self@.contains_key(*workspace_id),
            },
    {
        match self.states.get(workspace_id) {
            Some(state) => Some(state.clone()),
            None => None,
        }
    }

    /// Records that the loop of `workspace_id` now runs in `session_id`.
    /// Nothing else of the loop changes; without a loop on record nothing
    /// changes at all.
    pub fn update_session_id(&mut self, workspace_id: &WorkspaceId, session_id: String)
        ensures
            final(self)@ == after_update_session_id(old(self)@, *workspace_id, session_id@),
            !old(self)@.contains_key(*workspace_id) ==> final(self)@ == old(self)@,
    {
        match self.states.entry(*workspace_id) {
            Entry::Occupied(mut occupied) => {
                let state = occupied.get_mut();
                state.session_id = session_id;
            },
            Entry::Vacant(_) => {},
        }
        proof {
            if old(self)@.contains_key(*workspace_id) {
                let updated = old(self)@[*workspace_id].with_session_id(session_id@);
                assert(self@ =~= old(self)@.insert(*workspace_id, updated));
            } else {
                assert(self@ =~= old(self)@);
            }
        }
    }

    /// Counts one more iteration for `workspace_id` and tells whether the loop
    /// may go on: whether the new count is below the budget. Without a loop on
    /// record it answers `false` and changes nothing.
    ///
    /// The count is not clamped at the budget: a caller that goes on after
    /// `false` makes it grow past it.
    pub fn increment_and_check(&mut self, workspace_id: &WorkspaceId) -> (can_continue: bool)
        requires
            old(self)@.contains_key(*workspace_id) ==> old(self)@[*workspace_id].iteration
                < u32::MAX,
        ensures
            final(self)@ == after_increment(old(self)@, *workspace_id),
            can_continue == continues_after_increment(old(self)@, *workspace_id),
            !old(self)@.contains_key(*workspace_id) ==> final(self)@ == old(self)@
                && !can_continue,
    {
        let can_continue = match self.states.entry(*workspace_id) {
            Entry::Occupied(mut occupied) => {
                let state = occupied.get_mut();
                state.increment();
                state.can_continue()
            },
            Entry::Vacant(_) => false,
        };
        proof {
            if old(self)@.contains_key(*workspace_id) {
                let counted = old(self)@[*workspace_id].incremented();
                assert(self@ =~= old(self)@.insert(*workspace_id, counted));
            } else {
                assert(self@ =~= old(self)@);
            }
        }
        can_continue
    }

    /// Drops the loop of `workspace_id`, if there is one, and tells whether
    /// there was.
    pub fn remove(&mut self, workspace_id: &WorkspaceId) -> (removed: bool)
        ensures
            final(self)@ == after_remove(old(self)@, *workspace_id),
            removed == old(self)@.contains_key(*workspace_id),
            !final(self)@.contains_key(*workspace_id),
            !removed ==> final(self)@ == old(self)@,
    {
        let removed = self.states.remove(workspace_id).is_some();
        assert(self@ =~= old(self)@.remove(*workspace_id));
        removed
    }

    /// Whether a loop is on record for `workspace_id`.
    pub fn has_active_loop(&self, workspace_id: &WorkspaceId) -> (active: bool)
        ensures
            active == self@.contains_key(*workspace_id),
    {
        self.states.contains_key(workspace_id)
    }

    /// The completion marker on record for `workspace_id`: `None` without a
    /// loop, and for a loop that has no marker.
    pub fn get_completion_promise(&self, workspace_id: &WorkspaceId) -> (promise: Option<String>)
        ensures
            optional_text(promise) == completion_promise_of(self@, *workspace_id),
            !self@.contains_key(*workspace_id) ==> promise is None,
    {
        match self.states.get(workspace_id) {
            Some(state) => state.completion_promise.clone(),
            None => None,
        }
    }
}

impl Default for CopilotLoopTracker {
    fn default() -> (tracker: CopilotLoopTracker)
        ensures
            tracker@ == LoopTable::empty(),
    {
        CopilotLoopTracker::new()
    }
}

} // verus!
