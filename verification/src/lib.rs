//! Bookkeeping for automated agent loops, one per workspace.
//!
//! An automated loop re-prompts a coding agent until a completion marker shows
//! up in its output or an iteration budget is spent. This crate holds the
//! state of such loops and the rules that move it; whoever drives the agent
//! decides when to call them.
//!
//! - [`state`]: the state of one loop, and the follow-up prompt built from it.
//! - [`tracker`]: the loops on record, one per workspace.
//! - [`completion`]: the test for a completion marker in agent output.
//! - [`model`]: the mathematical model that the contracts speak of.
//! - [`laws`]: what follows for every table of loops and every run of calls.

pub mod completion;
pub mod laws;
pub mod model;
pub mod state;
pub mod tracker;

pub use completion::check_completion_promise;
pub use model::WorkspaceId;
pub use state::{CopilotLoopState, ExecutorProfileId};
pub use tracker::CopilotLoopTracker;
