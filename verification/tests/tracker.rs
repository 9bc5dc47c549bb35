use loop_tracker::{CopilotLoopState, CopilotLoopTracker, ExecutorProfileId, WorkspaceId};
use uuid::Uuid;

fn copilot() -> ExecutorProfileId {
    ExecutorProfileId::new("COPILOT".to_string())
}

fn register_plain(tracker: &mut CopilotLoopTracker, id: WorkspaceId, max_iterations: u32) {
    tracker.register(
        id,
        max_iterations,
        None,
        "prompt".to_string(),
        "session".to_string(),
        copilot(),
        None,
    );
}

fn same_state(a: &CopilotLoopState, b: &CopilotLoopState) -> bool {
    a.iteration == b.iteration
        && a.max_iterations == b.max_iterations
        && a.completion_promise == b.completion_promise
        && a.original_prompt == b.original_prompt
        && a.session_id == b.session_id
        && a.executor_profile_id.executor == b.executor_profile_id.executor
        && a.executor_profile_id.variant == b.executor_profile_id.variant
        && a.working_dir == b.working_dir
}

#[test]
fn test_loop_tracker_lifecycle() {
    let mut tracker = CopilotLoopTracker::new();
    let workspace_id = Uuid::new_v4().as_u128();
    let profile_id = copilot();

    // Register a new loop
    tracker.register(
        workspace_id,
        5,
        Some("<promise>COMPLETE</promise>".to_string()),
        "Test prompt".to_string(),
        "session-123".to_string(),
        profile_id,
        None,
    );

    // Check initial state
    assert!(tracker.has_active_loop(&workspace_id));
    let state = tracker.get(&workspace_id).unwrap();
    assert_eq!(state.iteration, 0);
    assert_eq!(state.max_iterations, 5);

    // Increment and check
    assert!(tracker.increment_and_check(&workspace_id));
    let state = tracker.get(&workspace_id).unwrap();
    assert_eq!(state.iteration, 1);

    // Remove
    tracker.remove(&workspace_id);
    assert!(!tracker.has_active_loop(&workspace_id));
}

#[test]
fn new_tracker_has_no_loops() {
    let tracker = CopilotLoopTracker::new();
    for id in [0u128, 1, 42, u128::MAX] {
        assert!(!tracker.has_active_loop(&id));
        assert!(tracker.get(&id).is_none());
        assert!(tracker.get_completion_promise(&id).is_none());
    }
    let by_default = CopilotLoopTracker::default();
    assert!(!by_default.has_active_loop(&7));
}

#[test]
fn unregistered_workspace_is_inert() {
    let mut tracker = CopilotLoopTracker::new();
    let known: WorkspaceId = 1;
    let unknown: WorkspaceId = Uuid::new_v4().as_u128() | 2;
    register_plain(&mut tracker, known, 3);
    let before = tracker.get(&known).unwrap();

    assert!(!tracker.has_active_loop(&unknown));
    assert!(tracker.get(&unknown).is_none());
    assert!(tracker.get_completion_promise(&unknown).is_none());
    assert!(!tracker.increment_and_check(&unknown));
    tracker.update_session_id(&unknown, "elsewhere".to_string());
    assert!(!tracker.remove(&unknown));

    assert!(!tracker.has_active_loop(&unknown));
    assert!(tracker.get(&unknown).is_none());
    let after = tracker.get(&known).unwrap();
    assert!(same_state(&before, &after));
}

#[test]
fn register_records_what_it_was_given() {
    let mut tracker = CopilotLoopTracker::new();
    let id: WorkspaceId = 0x1234_5678_9abc_def0_0fed_cba9_8765_4321;
    tracker.register(
        id,
        5,
        Some("P".to_string()),
        "X".to_string(),
        "s1".to_string(),
        ExecutorProfileId::with_variant("COPILOT".to_string(), "PLAN".to_string()),
        None,
    );
    assert!(tracker.has_active_loop(&id));
    let state = tracker.get(&id).unwrap();
    assert_eq!(state.iteration, 0);
    assert_eq!(state.max_iterations, 5);
    assert_eq!(state.completion_promise, Some("P".to_string()));
    assert_eq!(state.original_prompt, "X");
    assert_eq!(state.session_id, "s1");
    assert_eq!(state.executor_profile_id.executor, "COPILOT");
    assert_eq!(state.executor_profile_id.variant, Some("PLAN".to_string()));
    assert_eq!(state.working_dir, None);
    assert!(state.can_continue());
    assert_eq!(tracker.get_completion_promise(&id), Some("P".to_string()));
}

#[test]
fn register_keeps_working_dir() {
    let mut tracker = CopilotLoopTracker::new();
    tracker.register(
        9,
        1,
        None,
        "X".to_string(),
        "s1".to_string(),
        copilot(),
        Some("/srv/work".to_string()),
    );
    let state = tracker.get(&9).unwrap();
    assert_eq!(state.working_dir, Some("/srv/work".to_string()));
    assert_eq!(state.executor_profile_id.variant, None);
}

#[test]
fn register_again_starts_over() {
    let mut tracker = CopilotLoopTracker::new();
    let id: WorkspaceId = 77;
    register_plain(&mut tracker, id, 5);
    assert!(tracker.increment_and_check(&id));
    assert!(tracker.increment_and_check(&id));
    assert_eq!(tracker.get(&id).unwrap().iteration, 2);

    tracker.register(
        id,
        9,
        Some("done".to_string()),
        "second".to_string(),
        "s2".to_string(),
        copilot(),
        None,
    );
    let state = tracker.get(&id).unwrap();
    assert_eq!(state.iteration, 0);
    assert_eq!(state.max_iterations, 9);
    assert_eq!(state.original_prompt, "second");
    assert_eq!(state.session_id, "s2");
    assert_eq!(tracker.get_completion_promise(&id), Some("done".to_string()));
}

#[test]
fn budget_of_five_stops_at_fifth_increment() {
    let mut tracker = CopilotLoopTracker::new();
    let id: WorkspaceId = 5;
    register_plain(&mut tracker, id, 5);
    for expected in 1u32..=4 {
        assert!(tracker.increment_and_check(&id));
        assert_eq!(tracker.get(&id).unwrap().iteration, expected);
    }
    assert!(!tracker.increment_and_check(&id));
    assert_eq!(tracker.get(&id).unwrap().iteration, 5);
}

#[test]
fn increment_is_not_clamped_at_budget() {
    let mut tracker = CopilotLoopTracker::new();
    let id: WorkspaceId = 6;
    register_plain(&mut tracker, id, 2);
    assert!(tracker.increment_and_check(&id));
    assert!(!tracker.increment_and_check(&id));
    assert!(!tracker.increment_and_check(&id));
    assert!(!tracker.increment_and_check(&id));
    let state = tracker.get(&id).unwrap();
    assert_eq!(state.iteration, 4);
    assert_eq!(state.max_iterations, 2);
    assert!(!state.can_continue());
}

#[test]
fn budget_of_zero_never_continues() {
    let mut tracker = CopilotLoopTracker::new();
    let id: WorkspaceId = 10;
    register_plain(&mut tracker, id, 0);
    assert!(!tracker.get(&id).unwrap().can_continue());
    assert!(!tracker.increment_and_check(&id));
    assert_eq!(tracker.get(&id).unwrap().iteration, 1);
}

#[test]
fn budget_of_one_stops_at_first_increment() {
    let mut tracker = CopilotLoopTracker::new();
    let id: WorkspaceId = 11;
    register_plain(&mut tracker, id, 1);
    assert!(tracker.get(&id).unwrap().can_continue());
    assert!(!tracker.increment_and_check(&id));
    assert_eq!(tracker.get(&id).unwrap().iteration, 1);
}

#[test]
fn remove_ends_loop_and_can_be_repeated() {
    let mut tracker = CopilotLoopTracker::new();
    let id: WorkspaceId = 12;
    tracker.register(
        id,
        3,
        Some("marker".to_string()),
        "X".to_string(),
        "s".to_string(),
        copilot(),
        None,
    );
    assert!(tracker.remove(&id));
    assert!(!tracker.has_active_loop(&id));
    assert!(tracker.get(&id).is_none());
    assert!(tracker.get_completion_promise(&id).is_none());
    assert!(!tracker.remove(&id));
    assert!(!tracker.has_active_loop(&id));
    assert!(!tracker.increment_and_check(&id));
}

#[test]
fn update_session_id_changes_session_only() {
    let mut tracker = CopilotLoopTracker::new();
    let id: WorkspaceId = 13;
    tracker.register(
        id,
        5,
        Some("P".to_string()),
        "X".to_string(),
        "s1".to_string(),
        ExecutorProfileId::with_variant("COPILOT".to_string(), "PLAN".to_string()),
        Some("/tmp/w".to_string()),
    );
    assert!(tracker.increment_and_check(&id));
    let before = tracker.get(&id).unwrap();

    tracker.update_session_id(&id, "s2".to_string());

    let after = tracker.get(&id).unwrap();
    assert_eq!(after.session_id, "s2");
    assert_eq!(before.session_id, "s1");
    assert_eq!(after.iteration, 1);
    assert_eq!(after.max_iterations, 5);
    assert_eq!(after.completion_promise, Some("P".to_string()));
    assert_eq!(after.original_prompt, "X");
    assert_eq!(after.executor_profile_id.executor, "COPILOT");
    assert_eq!(after.executor_profile_id.variant, Some("PLAN".to_string()));
    assert_eq!(after.working_dir, Some("/tmp/w".to_string()));
}

#[test]
fn snapshot_is_a_copy() {
    let mut tracker = CopilotLoopTracker::new();
    let id: WorkspaceId = 14;
    register_plain(&mut tracker, id, 5);
    let mut snapshot = tracker.get(&id).unwrap();
    snapshot.increment();
    snapshot.session_id = "changed".to_string();
    snapshot.original_prompt.push_str(" and more");
    let mut promise = tracker.get_completion_promise(&id);
    promise.replace("changed".to_string());

    let state = tracker.get(&id).unwrap();
    assert_eq!(state.iteration, 0);
    assert_eq!(state.session_id, "session");
    assert_eq!(state.original_prompt, "prompt");
    assert_eq!(tracker.get_completion_promise(&id), None);
}

#[test]
fn completion_promise_absent_when_registered_without() {
    let mut tracker = CopilotLoopTracker::new();
    let id: WorkspaceId = 15;
    register_plain(&mut tracker, id, 5);
    assert!(tracker.has_active_loop(&id));
    assert_eq!(tracker.get_completion_promise(&id), None);
}

#[test]
fn workspaces_do_not_interfere() {
    let a: WorkspaceId = 100;
    let b: WorkspaceId = 200;

    // The calls for `a` alone.
    let mut alone = CopilotLoopTracker::new();
    register_plain(&mut alone, a, 3);
    let alone_first = alone.increment_and_check(&a);
    alone.update_session_id(&a, "a2".to_string());
    let alone_second = alone.increment_and_check(&a);

    // The same calls, with calls for `b` in between.
    let mut mixed = CopilotLoopTracker::new();
    register_plain(&mut mixed, b, 1);
    register_plain(&mut mixed, a, 3);
    assert!(!mixed.increment_and_check(&b));
    let mixed_first = mixed.increment_and_check(&a);
    assert!(mixed.remove(&b));
    mixed.update_session_id(&a, "a2".to_string());
    register_plain(&mut mixed, b, 7);
    let mixed_second = mixed.increment_and_check(&a);
    assert!(mixed.increment_and_check(&b));

    assert_eq!(alone_first, mixed_first);
    assert_eq!(alone_second, mixed_second);
    assert!(same_state(&alone.get(&a).unwrap(), &mixed.get(&a).unwrap()));
    assert_eq!(mixed.get(&a).unwrap().iteration, 2);
    assert_eq!(mixed.get(&a).unwrap().session_id, "a2");
    assert_eq!(mixed.get(&b).unwrap().iteration, 1);
    assert_eq!(mixed.get(&b).unwrap().max_iterations, 7);
}

#[test]
fn interleavings_agree() {
    let a: WorkspaceId = 1;
    let b: WorkspaceId = 2;

    let mut one = CopilotLoopTracker::new();
    register_plain(&mut one, a, 2);
    register_plain(&mut one, b, 2);
    one.increment_and_check(&a);
    one.increment_and_check(&b);
    one.remove(&a);
    one.increment_and_check(&b);

    let mut other = CopilotLoopTracker::new();
    register_plain(&mut other, b, 2);
    other.increment_and_check(&b);
    other.increment_and_check(&b);
    register_plain(&mut other, a, 2);
    other.increment_and_check(&a);
    other.remove(&a);

    assert!(!one.has_active_loop(&a));
    assert!(!other.has_active_loop(&a));
    assert!(same_state(&one.get(&b).unwrap(), &other.get(&b).unwrap()));
    assert_eq!(one.get(&b).unwrap().iteration, 2);
}

#[test]
fn many_workspaces_keep_their_own_state() {
    let mut tracker = CopilotLoopTracker::new();
    for n in 0u32..50 {
        register_plain(&mut tracker, Uuid::from_u128(n as u128).as_u128(), n);
    }
    for n in 0u32..50 {
        let id = n as u128;
        for _ in 0..(n % 4) {
            tracker.increment_and_check(&id);
        }
    }
    for n in 0u32..50 {
        let state = tracker.get(&(n as u128)).unwrap();
        assert_eq!(state.max_iterations, n);
        assert_eq!(state.iteration, n % 4);
        assert_eq!(state.can_continue(), n % 4 < n);
    }
}
