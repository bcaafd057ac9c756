use rotator_debug::{
    ActionView, BlockReason, CondOutcome, PriorityActionView, QueueKind, RotatorDebugEvent,
    RotatorDebugState, RotatorSnapshot, MAX_TIMELINE,
};

fn action(id: Option<u32>, label: &str) -> ActionView {
    ActionView {
        id,
        label: label.to_string(),
        condition_kind: "EveryMillis(30000)".to_string(),
        queue_to_front: false,
    }
}

fn enqueued(at: u64, kind: QueueKind, label: &str, to_front: bool) -> RotatorDebugEvent {
    RotatorDebugEvent::Enqueued { at, kind, action: action(Some(1), label), queue_len: 1, to_front }
}

fn dispatched(at: u64, kind: QueueKind, label: &str) -> RotatorDebugEvent {
    RotatorDebugEvent::Dispatched { at, kind, action: action(Some(1), label) }
}

fn labels(state: &RotatorDebugState) -> Vec<String> {
    state.priority_queue.iter().map(|a| a.label.clone()).collect()
}

fn pav(id: u32, label: &str) -> PriorityActionView {
    PriorityActionView {
        action: action(Some(id), label),
        ignoring: false,
        cooldown_remaining_ms: None,
        in_queue_or_executing: false,
    }
}

#[test]
fn initial_state_is_empty() {
    let state = RotatorDebugState::default();
    assert!(state.priority_queue.is_empty());
    assert_eq!(state.side_queue_len, 0);
    assert_eq!(state.player_block_reason, BlockReason::NotBlocked);
    assert!(state.timeline.is_empty());
    assert!(!state.enabled);
    assert!(!state.paused);
}

#[test]
fn priority_enqueue_back_and_front() {
    let mut state = RotatorDebugState::default();
    state.apply_event(&enqueued(1, QueueKind::Priority, "A", false));
    state.apply_event(&enqueued(2, QueueKind::Priority, "B", false));
    state.apply_event(&enqueued(3, QueueKind::Priority, "C", true));
    assert_eq!(labels(&state), vec!["C", "A", "B"]);
    assert_eq!(state.timeline.len(), 3);
    assert_eq!(state.timeline[2].at_ms, 3);
    assert!(!state.timeline[2].is_warn);
}

#[test]
fn priority_dispatch_removes_every_entry_with_the_label() {
    let mut state = RotatorDebugState::default();
    state.apply_event(&enqueued(1, QueueKind::Priority, "A", false));
    state.apply_event(&enqueued(2, QueueKind::Priority, "B", false));
    state.apply_event(&enqueued(3, QueueKind::Priority, "A", false));
    state.apply_event(&dispatched(4, QueueKind::Priority, "A"));
    assert_eq!(labels(&state), vec!["B"]);
    assert_eq!(state.timeline.len(), 4);
}

#[test]
fn side_queue_counts_and_saturates() {
    let mut state = RotatorDebugState::default();
    state.apply_event(&enqueued(1, QueueKind::Side, "S", false));
    state.apply_event(&enqueued(2, QueueKind::Side, "S", false));
    assert_eq!(state.side_queue_len, 2);
    state.apply_event(&dispatched(3, QueueKind::Side, "S"));
    state.apply_event(&dispatched(4, QueueKind::Side, "S"));
    state.apply_event(&dispatched(5, QueueKind::Side, "S"));
    assert_eq!(state.side_queue_len, 0);
}

#[test]
fn normal_queue_events_only_log() {
    let mut state = RotatorDebugState::default();
    state.apply_event(&enqueued(1, QueueKind::Normal, "N", false));
    state.apply_event(&dispatched(2, QueueKind::Normal, "N"));
    assert!(state.priority_queue.is_empty());
    assert_eq!(state.side_queue_len, 0);
    assert_eq!(state.timeline.len(), 2);
}

#[test]
fn blocked_sets_reason() {
    let mut state = RotatorDebugState::default();
    state.apply_event(&RotatorDebugEvent::Blocked {
        at: 10,
        reason: BlockReason::SideLoadedActionExecuting,
    });
    assert_eq!(state.player_block_reason, BlockReason::SideLoadedActionExecuting);
    assert_eq!(state.timeline.len(), 1);
}

#[test]
fn condition_updates_first_matching_action() {
    let mut state = RotatorDebugState::default();
    state.priority_actions = vec![pav(1, "A"), pav(2, "B"), pav(2, "B2")];
    state.apply_event(&RotatorDebugEvent::ConditionEvaluated {
        at: 5,
        action: action(Some(2), "B"),
        outcome: CondOutcome::IgnoredWhileInQueue,
        cooldown_remaining_ms: Some(1500),
    });
    assert!(state.priority_actions[1].ignoring);
    assert_eq!(state.priority_actions[1].cooldown_remaining_ms, Some(1500));
    assert!(!state.priority_actions[2].ignoring);
    assert_eq!(state.priority_actions[2].cooldown_remaining_ms, None);
    assert!(!state.priority_actions[0].ignoring);
    assert_eq!(state.timeline.len(), 1);
    assert!(state.timeline[0].is_warn);

    state.apply_event(&RotatorDebugEvent::ConditionEvaluated {
        at: 6,
        action: action(Some(2), "B"),
        outcome: CondOutcome::Queue,
        cooldown_remaining_ms: Some(0),
    });
    assert!(!state.priority_actions[1].ignoring);
    assert_eq!(state.priority_actions[1].cooldown_remaining_ms, Some(0));
    assert_eq!(state.timeline.len(), 1);
}

#[test]
fn condition_for_unknown_action_changes_nothing_but_the_log() {
    let mut state = RotatorDebugState::default();
    state.priority_actions = vec![pav(1, "A")];
    state.apply_event(&RotatorDebugEvent::ConditionEvaluated {
        at: 5,
        action: action(Some(9), "Z"),
        outcome: CondOutcome::Skip,
        cooldown_remaining_ms: Some(10),
    });
    assert_eq!(state.priority_actions[0].cooldown_remaining_ms, None);
    assert!(state.timeline.is_empty());
}

#[test]
fn normal_advance_moves_index() {
    let mut state = RotatorDebugState::default();
    state.apply_event(&RotatorDebugEvent::NormalAdvanced {
        at: 1,
        index: 4,
        backward: true,
        action: action(None, "Move"),
    });
    assert_eq!(state.normal_index, 4);
    assert!(state.normal_backward);
    assert!(state.timeline.is_empty());
}

fn snapshot() -> RotatorSnapshot {
    RotatorSnapshot {
        at: 100,
        priority_queue: vec![action(Some(1), "P")],
        side_queue_len: 3,
        normal_index: 2,
        normal_backward: true,
        normal_actions: vec![action(Some(5), "N0"), action(Some(6), "N1")],
        priority_actions: vec![pav(1, "P")],
        player_block_reason: BlockReason::CannotOverrideCurrentState,
    }
}

#[test]
fn snapshot_replaces_state() {
    let mut state = RotatorDebugState::default();
    state.apply_event(&enqueued(1, QueueKind::Priority, "Old", false));
    state.apply_event(&RotatorDebugEvent::Snapshot(snapshot()));
    assert_eq!(labels(&state), vec!["P"]);
    assert_eq!(state.side_queue_len, 3);
    assert_eq!(state.normal_index, 2);
    assert!(state.normal_backward);
    assert_eq!(state.normal_actions.len(), 2);
    assert_eq!(state.priority_actions.len(), 1);
    assert_eq!(state.player_block_reason, BlockReason::CannotOverrideCurrentState);
    assert_eq!(state.timeline.len(), 1);
}

#[test]
fn timeline_keeps_latest_entries() {
    let mut state = RotatorDebugState::default();
    for at in 0..(MAX_TIMELINE as u64 + 50) {
        state.apply_event(&RotatorDebugEvent::Blocked { at, reason: BlockReason::NotBlocked });
    }
    assert_eq!(state.timeline.len(), MAX_TIMELINE);
    assert_eq!(state.timeline[0].at_ms, 50);
    assert_eq!(state.timeline[MAX_TIMELINE - 1].at_ms, MAX_TIMELINE as u64 + 49);
}

#[test]
fn paused_panel_updates_state_but_not_timeline() {
    let mut state = RotatorDebugState::default();
    state.toggle_paused();
    assert!(state.paused);
    let events = vec![
        enqueued(1, QueueKind::Priority, "A", false),
        enqueued(2, QueueKind::Side, "S", false),
        RotatorDebugEvent::Blocked { at: 3, reason: BlockReason::QueueToFrontHeld },
        RotatorDebugEvent::NormalAdvanced { at: 4, index: 7, backward: false, action: action(None, "M") },
    ];
    assert_eq!(state.receive_batch(&events), 4);
    assert_eq!(labels(&state), vec!["A"]);
    assert_eq!(state.side_queue_len, 1);
    assert_eq!(state.player_block_reason, BlockReason::QueueToFrontHeld);
    assert_eq!(state.normal_index, 7);
    assert!(state.timeline.is_empty());

    state.receive(&RotatorDebugEvent::Snapshot(snapshot()));
    assert_eq!(state.side_queue_len, 3);
    assert!(state.timeline.is_empty());

    state.toggle_paused();
    state.receive(&enqueued(5, QueueKind::Priority, "A", false));
    assert_eq!(labels(&state), vec!["P", "A"]);
    assert_eq!(state.timeline.len(), 1);
}

#[test]
fn paused_panel_keeps_existing_timeline() {
    let mut state = RotatorDebugState::default();
    state.receive(&enqueued(1, QueueKind::Priority, "A", false));
    state.toggle_paused();
    state.receive(&dispatched(2, QueueKind::Priority, "A"));
    assert!(state.priority_queue.is_empty());
    assert_eq!(state.timeline.len(), 1);
    assert_eq!(state.timeline[0].at_ms, 1);
}

#[test]
fn enable_toggle_asks_for_the_opposite() {
    let mut state = RotatorDebugState::default();
    assert!(state.enabled_after_toggle());
    state.set_enabled(state.enabled_after_toggle());
    assert!(!state.enabled_after_toggle());
}

#[test]
fn batch_stops_before_side_counter_overflow() {
    let mut state = RotatorDebugState::default();
    state.side_queue_len = usize::MAX - 1;
    let events = vec![
        enqueued(1, QueueKind::Side, "S", false),
        enqueued(2, QueueKind::Side, "S", false),
        enqueued(3, QueueKind::Priority, "A", false),
    ];
    assert!(state.accepts(&events[0]));
    assert_eq!(state.receive_batch(&events), 1);
    assert_eq!(state.side_queue_len, usize::MAX);
    assert!(!state.accepts(&events[1]));
    assert!(state.accepts(&events[2]));
}

#[test]
fn disabling_resets_panel() {
    let mut state = RotatorDebugState::default();
    state.set_enabled(true);
    assert!(state.enabled);
    state.apply_event(&enqueued(1, QueueKind::Priority, "A", false));
    state.toggle_paused();
    state.set_enabled(true);
    assert_eq!(labels(&state), vec!["A"]);
    state.set_enabled(false);
    assert!(!state.enabled);
    assert!(!state.paused);
    assert!(state.priority_queue.is_empty());
    assert!(state.timeline.is_empty());
}
