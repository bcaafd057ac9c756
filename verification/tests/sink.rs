use rotator_debug::{
    elapsed_ms_from_millis, ActionView, BlockReason, QueueKind, RotatorDebugEvent,
    RotatorDebugSink,
};

fn blocked(at: u64) -> RotatorDebugEvent {
    RotatorDebugEvent::Blocked { at, reason: BlockReason::QueueToFrontHeld }
}

fn at_of(ev: &RotatorDebugEvent) -> u64 {
    match ev {
        RotatorDebugEvent::Blocked { at, .. } => *at,
        RotatorDebugEvent::Enqueued { at, .. } => *at,
        _ => panic!("unexpected event"),
    }
}

#[test]
fn new_sink_is_disabled_and_clean() {
    let mut sink = RotatorDebugSink::new(4);
    assert!(!sink.enabled);
    assert!(!sink.dirty);
    assert!(sink.drain_pending().is_empty());
}

#[test]
fn emit_while_disabled_is_ignored() {
    let mut sink = RotatorDebugSink::new(4);
    sink.emit(blocked(1));
    assert!(!sink.dirty);
    assert!(sink.drain_pending().is_empty());
}

#[test]
fn emit_records_in_order_and_marks_dirty() {
    let mut sink = RotatorDebugSink::new(4);
    sink.set_enabled(true);
    sink.emit(blocked(1));
    sink.emit(blocked(2));
    assert!(sink.dirty);
    let out = sink.drain_pending();
    assert_eq!(out.iter().map(at_of).collect::<Vec<_>>(), vec![1, 2]);
    assert!(!sink.dirty);
}

#[test]
fn full_buffer_drops_oldest() {
    let mut sink = RotatorDebugSink::new(3);
    sink.set_enabled(true);
    for at in 1..=5 {
        sink.emit(blocked(at));
    }
    let out = sink.drain_pending();
    assert_eq!(out.iter().map(at_of).collect::<Vec<_>>(), vec![3, 4, 5]);
}

#[test]
fn drain_keeps_history() {
    let mut sink = RotatorDebugSink::new(3);
    sink.set_enabled(true);
    sink.emit(blocked(7));
    let first = sink.drain_pending();
    let second = sink.drain_pending();
    assert_eq!(first.len(), 1);
    assert_eq!(second.len(), 1);
    assert_eq!(at_of(&second[0]), 7);
}

#[test]
fn disabling_clears_history_and_dirty() {
    let mut sink = RotatorDebugSink::new(3);
    sink.set_enabled(true);
    sink.emit(blocked(1));
    sink.set_enabled(false);
    assert!(!sink.enabled);
    assert!(!sink.dirty);
    sink.set_enabled(true);
    assert!(sink.drain_pending().is_empty());
}

#[test]
fn enabling_again_keeps_history() {
    let mut sink = RotatorDebugSink::new(3);
    sink.set_enabled(true);
    sink.emit(blocked(1));
    sink.set_enabled(true);
    assert!(sink.dirty);
    assert_eq!(sink.drain_pending().len(), 1);
}

#[test]
fn zero_capacity_keeps_nothing() {
    let mut sink = RotatorDebugSink::new(0);
    sink.set_enabled(true);
    for at in 1..=4 {
        sink.emit(blocked(at));
    }
    assert!(sink.dirty);
    assert_eq!(sink.drain_pending().len(), 0);
}

#[test]
fn capacity_one_keeps_the_newest() {
    let mut sink = RotatorDebugSink::new(1);
    sink.set_enabled(true);
    sink.emit(blocked(1));
    sink.emit(blocked(2));
    let out = sink.drain_pending();
    assert_eq!(out.iter().map(at_of).collect::<Vec<_>>(), vec![2]);
}

#[test]
fn dirty_follows_emits_drains_and_disabling() {
    let mut sink = RotatorDebugSink::new(2);
    sink.emit(blocked(1));
    assert!(!sink.dirty);
    sink.set_enabled(true);
    assert!(!sink.dirty);
    sink.emit(blocked(2));
    assert!(sink.dirty);
    sink.set_enabled(true);
    assert!(sink.dirty);
    sink.drain_pending();
    assert!(!sink.dirty);
    sink.emit(blocked(3));
    sink.set_enabled(false);
    assert!(!sink.dirty);
    assert!(sink.drain_pending().is_empty());
}

#[test]
fn default_sink_holds_512_events() {
    let mut sink = RotatorDebugSink::default();
    sink.set_enabled(true);
    for at in 0..600 {
        sink.emit(blocked(at));
    }
    let out = sink.drain_pending();
    assert_eq!(out.len(), 512);
    assert_eq!(at_of(&out[0]), 88);
    assert_eq!(at_of(&out[511]), 599);
}

#[test]
fn drained_events_are_copies() {
    let mut sink = RotatorDebugSink::new(2);
    sink.set_enabled(true);
    let action = ActionView {
        id: Some(3),
        label: "ErdaShower".to_string(),
        condition_kind: "ErdaShowerOffCooldown".to_string(),
        queue_to_front: true,
    };
    sink.emit(RotatorDebugEvent::Enqueued {
        at: 9,
        kind: QueueKind::Priority,
        action,
        queue_len: 1,
        to_front: true,
    });
    let out = sink.drain_pending();
    match &out[0] {
        RotatorDebugEvent::Enqueued { at, kind, action, queue_len, to_front } => {
            assert_eq!(*at, 9);
            assert_eq!(*kind, QueueKind::Priority);
            assert_eq!(action.id, Some(3));
            assert_eq!(action.label, "ErdaShower");
            assert_eq!(action.condition_kind, "ErdaShowerOffCooldown");
            assert!(action.queue_to_front);
            assert_eq!(*queue_len, 1);
            assert!(*to_front);
        }
        _ => panic!("wrong event"),
    }
}

#[test]
fn now_ms_counts_from_creation() {
    let sink = RotatorDebugSink::new(1);
    let a = sink.now_ms();
    let b = sink.now_ms();
    assert!(a <= b);
    assert!(b < 60_000);
}

#[test]
fn elapsed_ms_keeps_low_bits() {
    assert_eq!(elapsed_ms_from_millis(1234), 1234);
    assert_eq!(elapsed_ms_from_millis((1u128 << 64) + 5), 5);
}
