//! The state of one automated loop and what can be derived from it.
//!
//! A loop re-prompts an agent until its output carries a completion marker or
//! its iteration budget is used up. [`CopilotLoopState`] is the record kept for
//! one workspace; [`LoopStateView`] is its mathematical model, over which every
//! contract in this crate is stated.

use vstd::prelude::*;
use vstd::string::*;

verus! {

/// Model of an [`ExecutorProfileId`]: its two texts as character sequences.
#[verifier::ext_equal]
pub struct ExecutorProfileIdView {
    pub executor: Seq<char>,
    pub variant: Option<Seq<char>>,
}

/// Model of a [`CopilotLoopState`].
///
/// The counters are unbounded naturals here, so that laws about repeated
/// increments need no side conditions on machine integers.
#[verifier::ext_equal]
pub struct LoopStateView {
    pub iteration: nat,
    pub max_iterations: nat,
    pub completion_promise: Option<Seq<char>>,
    pub original_prompt: Seq<char>,
    pub session_id: Seq<char>,
    pub executor_profile_id: ExecutorProfileIdView,
    pub working_dir: Option<Seq<char>>,
}

/// The characters of an optional text.
pub open spec fn optional_text(text: Option<String>) -> Option<Seq<char>> {
    match text {
        Some(s) => Some(s@),
        None => None,
    }
}

/// What is appended to the original prompt to ask the agent to go on: a blank
/// line, then the two-character word for "continue".
pub open spec fn continuation_suffix() -> Seq<char> {
    seq!['\n', '\n', '\u{7e7c}', '\u{7e8c}']
}

impl LoopStateView {
    /// The state of a loop that has just been registered: no iteration has run.
    pub open spec fn fresh(
        max_iterations: nat,
        completion_promise: Option<Seq<char>>,
        original_prompt: Seq<char>,
        session_id: Seq<char>,
        executor_profile_id: ExecutorProfileIdView,
        working_dir: Option<Seq<char>>,
    ) -> LoopStateView {
        LoopStateView {
            iteration: 0,
            max_iterations,
            completion_promise,
            original_prompt,
            session_id,
            executor_profile_id,
            working_dir,
        }
    }

    /// Whether the budget allows another iteration.
    pub open spec fn can_continue(self) -> bool {
        self.iteration < self.max_iterations
    }

    /// The state after one more iteration. Nothing but the counter moves, and
    /// the counter is not clamped at the budget.
    pub open spec fn incremented(self) -> LoopStateView {
        LoopStateView { iteration: self.iteration + 1, ..self }
    }

    /// The state after the loop moved to another agent session.
    pub open spec fn with_session_id(self, session_id: Seq<char>) -> LoopStateView {
        LoopStateView { session_id, ..self }
    }

    /// The prompt that asks the agent for the next iteration.
    pub open spec fn follow_up_prompt(self) -> Seq<char> {
        self.original_prompt + continuation_suffix()
    }
}

/// Names the agent configuration that follow-up requests of a loop reuse: the
/// executor, and optionally one of its variants. The tracker stores it and
/// hands it back; it never looks inside.
#[derive(Debug)]
pub struct ExecutorProfileId {
    pub executor: String,
    pub variant: Option<String>,
}

impl View for ExecutorProfileId {
    type V = ExecutorProfileIdView;

    open spec fn view(&self) -> ExecutorProfileIdView {
        ExecutorProfileIdView { executor: self.executor@, variant: optional_text(self.variant) }
    }
}

impl ExecutorProfileId {
    /// The default configuration of `executor`, without a variant.
    pub fn new(executor: String) -> (id: ExecutorProfileId)
        ensures
            id.executor == executor,
            id.variant is None,
            id@ == (ExecutorProfileIdView { executor: executor@, variant: None }),
    {
        ExecutorProfileId { executor, variant: None }
    }

    /// The configuration `variant` of `executor`.
    pub fn with_variant(executor: String, variant: String) -> (id: ExecutorProfileId)
        ensures
            id.executor == executor,
            id.variant == Some(variant),
            id@ == (ExecutorProfileIdView { executor: executor@, variant: Some(variant@) }),
    {
        ExecutorProfileId { executor, variant: Some(variant) }
    }
}

impl Clone for ExecutorProfileId {
    fn clone(&self) -> (copy: ExecutorProfileId)
        ensures
            copy == *self,
    {
        ExecutorProfileId {
            executor: self.executor.clone(),
            variant: self.variant.clone(),
        }
    }
}

/// State of one automated loop.
#[derive(Debug)]
pub struct CopilotLoopState {
    /// Iterations run so far; starts at 0.
    pub iteration: u32,
    /// The iteration budget, fixed when the loop is registered.
    pub max_iterations: u32,
    /// Text whose presence in agent output means the task is complete.
    pub completion_promise: Option<String>,
    /// The request the loop started from.
    pub original_prompt: String,
    /// The agent session the loop currently runs in.
    pub session_id: String,
    /// The agent configuration used for follow-up requests.
    pub executor_profile_id: ExecutorProfileId,
    /// Working directory of the loop, if it has one.
    pub working_dir: Option<String>,
}

impl View for CopilotLoopState {
    type V = LoopStateView;

    open spec fn view(&self) -> LoopStateView {
        LoopStateView {
            iteration: self.iteration as nat,
            max_iterations: self.max_iterations as nat,
            completion_promise: optional_text(self.completion_promise),
            original_prompt: self.original_prompt@,
            session_id: self.session_id@,
            executor_profile_id: self.executor_profile_id@,
            working_dir: optional_text(self.working_dir),
        }
    }
}

impl Clone for CopilotLoopState {
    fn clone(&self) -> (copy: CopilotLoopState)
        ensures
            copy == *self,
    {
        CopilotLoopState {
            iteration: self.iteration,
            max_iterations: self.max_iterations,
            completion_promise: self.completion_promise.clone(),
            original_prompt: self.original_prompt.clone(),
            session_id: self.session_id.clone(),
            executor_profile_id: self.executor_profile_id.clone(),
            working_dir: self.working_dir.clone(),
        }
    }
}

impl CopilotLoopState {
    /// Whether the budget allows another iteration.
    pub fn can_continue(&self) -> (r: bool)
        ensures
            r == (self.iteration < self.max_iterations),
            r == self@.can_continue(),
    {
        self.iteration < self.max_iterations
    }

    /// Counts one more iteration. The counter is not clamped at the budget; it
    /// only has to fit its machine integer.
    pub fn increment(&mut self)
        requires
            old(self).iteration < u32::MAX,
        ensures
            final(self).iteration == old(self).iteration + 1,
            *final(self) == (CopilotLoopState {
                iteration: final(self).iteration,
                ..*old(self)
            }),
            final(self)@ == old(self)@.incremented(),
    {
        self.iteration += 1;
    }

    /// The prompt for the next iteration: the original prompt, a blank line
    /// and the word for "continue".
    pub fn build_follow_up_prompt(&self) -> (prompt: String)
        ensures
            prompt@ == self.original_prompt@ + continuation_suffix(),
            prompt@ == self@.follow_up_prompt(),
    {
        let mut prompt = self.original_prompt.clone();
        prompt.append("\n\n\u{7e7c}\u{7e8c}");
        proof {
            reveal_strlit("\n\n\u{7e7c}\u{7e8c}");
            assert("\n\n\u{7e7c}\u{7e8c}"@ =~= continuation_suffix());
        }
        prompt
    }
}

} // verus!
