//! What each kind of event does to the debug panel, stated field by field.

use vstd::prelude::*;

use crate::events::{ActionView, BlockReason, CondOutcome, QueueKind, RotatorDebugEvent};
use crate::panel::{apply, can_receive, receive, PanelView, TimelineEntry, MAX_TIMELINE};

verus! {

/// The timeline after an entry is logged: the entry comes last, the entries
/// before it are the newest of the old ones, and there are never more than
/// `MAX_TIMELINE` when there were not before.
pub open spec fn logged(before: Seq<TimelineEntry>, after: Seq<TimelineEntry>, entry: TimelineEntry) -> bool {
    &&& after.len() > 0
    &&& after.last() == entry
    &&& after.drop_last() == (if before.len() >= MAX_TIMELINE { before.skip(1) } else { before })
    &&& (before.len() <= MAX_TIMELINE ==> after.len() <= MAX_TIMELINE)
}

/// An event that can overflow nothing is always received: the only event a
/// panel refuses is a side-queue enqueue while the side counter is at
/// `usize::MAX`. Snapshots and all other events are never refused.
pub proof fn lemma_refused_only_on_side_overflow(v: PanelView, ev: RotatorDebugEvent)
    ensures
        !can_receive(v, ev) <==> (ev matches RotatorDebugEvent::Enqueued { kind: QueueKind::Side, .. }
            && v.side_queue_len == usize::MAX),
        ev is Snapshot ==> can_receive(v, ev),
{
}

/// A live (not paused) panel takes every event in full, timeline included; a
/// paused one takes everything but the timeline.
pub proof fn lemma_receive_is_apply(v: PanelView, ev: RotatorDebugEvent)
    ensures
        !v.paused ==> receive(v, ev) == apply(v, ev),
        v.paused ==> receive(v, ev) == (PanelView { timeline: v.timeline, ..apply(v, ev) }),
{
}

/// A normal-traversal move sets the index and direction it reports and
/// changes nothing else, the timeline included.
pub proof fn lemma_normal_advance_moves(v: PanelView, at: u64, index: usize, backward: bool, action: ActionView)
    ensures
        ({
            let w = receive(v, RotatorDebugEvent::NormalAdvanced { at, index, backward, action });
            &&& w.normal_index == index
            &&& w.normal_backward == backward
            &&& w == (PanelView { normal_index: index, normal_backward: backward, ..v })
        }),
{
}

/// A condition evaluation, whatever its outcome, sets the cooldown of the
/// first priority action with the evaluated action's id to the reported one,
/// and its ignoring flag to whether the outcome was `IgnoredWhileInQueue`;
/// every other entry stays as it was. Only an `IgnoredWhileInQueue` outcome
/// reaches the timeline, as a warning.
pub proof fn lemma_condition_sets_cooldown(
    v: PanelView,
    at: u64,
    action: ActionView,
    outcome: CondOutcome,
    cooldown: Option<i64>,
    k: int,
)
    requires
        0 <= k < v.priority_actions.len(),
        v.priority_actions[k].action.id == action.id,
        forall|j: int| 0 <= j < k ==> v.priority_actions[j].action.id != action.id,
    ensures
        ({
            let ev = RotatorDebugEvent::ConditionEvaluated { at, action, outcome, cooldown_remaining_ms: cooldown };
            let w = apply(v, ev);
            &&& w.priority_actions.len() == v.priority_actions.len()
            &&& w.priority_actions[k].cooldown_remaining_ms == cooldown
            &&& w.priority_actions[k].ignoring == (outcome == CondOutcome::IgnoredWhileInQueue)
            &&& w.priority_actions[k].action == v.priority_actions[k].action
            &&& w.priority_actions[k].in_queue_or_executing == v.priority_actions[k].in_queue_or_executing
            &&& forall|j: int| 0 <= j < v.priority_actions.len() && j != k
                ==> #[trigger] w.priority_actions[j] == v.priority_actions[j]
            &&& w.priority_queue == v.priority_queue
            &&& w.side_queue_len == v.side_queue_len
            &&& w.player_block_reason == v.player_block_reason
            &&& (outcome == CondOutcome::IgnoredWhileInQueue
                ==> logged(v.timeline, w.timeline, TimelineEntry { at_ms: at, event: ev, is_warn: true }))
            &&& (outcome != CondOutcome::IgnoredWhileInQueue ==> w.timeline == v.timeline)
        }),
{
    let ev = RotatorDebugEvent::ConditionEvaluated { at, action, outcome, cooldown_remaining_ms: cooldown };
    let actions = v.priority_actions;
    assert(crate::panel::is_first_with_id(actions, action.id, k));
    assert forall|i: int| crate::panel::is_first_with_id(actions, action.id, i) implies i == k by {
        if i < k {
        } else if i > k {
            assert(actions[k].action.id == action.id);
        }
    }
    assert(crate::panel::first_with_id(actions, action.id) == Some(k));
    if outcome == CondOutcome::IgnoredWhileInQueue {
        let w = apply(v, ev);
        let e = TimelineEntry { at_ms: at, event: ev, is_warn: true };
        if v.timeline.len() >= MAX_TIMELINE {
            assert(w.timeline.drop_last() =~= v.timeline.skip(1));
        } else {
            assert(w.timeline.drop_last() =~= v.timeline);
        }
    }
}

/// A condition evaluation of an action that no priority action has leaves
/// the priority actions as they were.
pub proof fn lemma_condition_unknown_action(
    v: PanelView,
    at: u64,
    action: ActionView,
    outcome: CondOutcome,
    cooldown: Option<i64>,
)
    requires
        forall|j: int| 0 <= j < v.priority_actions.len() ==> v.priority_actions[j].action.id != action.id,
    ensures
        apply(v, RotatorDebugEvent::ConditionEvaluated { at, action, outcome, cooldown_remaining_ms: cooldown })
            .priority_actions == v.priority_actions,
{
    assert(!exists|i: int| crate::panel::is_first_with_id(v.priority_actions, action.id, i));
}

/// A priority enqueue puts the action at the front or the back of the
/// priority queue as asked and logs the event; a side enqueue adds one to the
/// side counter; a normal enqueue only logs.
pub proof fn lemma_enqueue_effects(
    v: PanelView,
    at: u64,
    kind: QueueKind,
    action: ActionView,
    queue_len: usize,
    to_front: bool,
)
    requires
        kind == QueueKind::Side ==> v.side_queue_len < usize::MAX,
    ensures
        ({
            let ev = RotatorDebugEvent::Enqueued { at, kind, action, queue_len, to_front };
            let w = apply(v, ev);
            &&& logged(v.timeline, w.timeline, TimelineEntry { at_ms: at, event: ev, is_warn: false })
            &&& w.player_block_reason == v.player_block_reason
            &&& w.priority_actions == v.priority_actions
            &&& (kind == QueueKind::Priority && to_front ==> w.priority_queue == seq![action] + v.priority_queue)
            &&& (kind == QueueKind::Priority && !to_front ==> w.priority_queue == v.priority_queue.push(action))
            &&& (kind == QueueKind::Priority ==> w.side_queue_len == v.side_queue_len)
            &&& (kind == QueueKind::Side ==> w.side_queue_len == v.side_queue_len + 1
                && w.priority_queue == v.priority_queue)
            &&& (kind == QueueKind::Normal ==> w.side_queue_len == v.side_queue_len
                && w.priority_queue == v.priority_queue)
        }),
{
    let ev = RotatorDebugEvent::Enqueued { at, kind, action, queue_len, to_front };
    let w = apply(v, ev);
    if v.timeline.len() >= MAX_TIMELINE {
        assert(w.timeline.drop_last() =~= v.timeline.skip(1));
    } else {
        assert(w.timeline.drop_last() =~= v.timeline);
    }
    if kind == QueueKind::Priority && to_front {
        assert(w.priority_queue =~= seq![action] + v.priority_queue);
    }
}

/// A priority dispatch takes every action with the dispatched label out of
/// the priority queue, keeping the others in order; a side dispatch takes one
/// off the side counter, stopping at zero; every dispatch is logged.
pub proof fn lemma_dispatch_effects(v: PanelView, at: u64, kind: QueueKind, action: ActionView)
    ensures
        ({
            let ev = RotatorDebugEvent::Dispatched { at, kind, action };
            let w = apply(v, ev);
            &&& logged(v.timeline, w.timeline, TimelineEntry { at_ms: at, event: ev, is_warn: false })
            &&& (kind == QueueKind::Priority ==> {
                &&& forall|i: int| 0 <= i < w.priority_queue.len()
                    ==> (#[trigger] w.priority_queue[i]).label@ != action.label@
                &&& forall|i: int| 0 <= i < v.priority_queue.len() && (#[trigger] v.priority_queue[i]).label@ != action.label@
                    ==> w.priority_queue.contains(v.priority_queue[i])
                &&& w.priority_queue.len() <= v.priority_queue.len()
            })
            &&& (kind == QueueKind::Side ==> w.side_queue_len == if v.side_queue_len == 0 {
                0
            } else {
                v.side_queue_len - 1
            })
            &&& (kind != QueueKind::Priority ==> w.priority_queue == v.priority_queue)
            &&& (kind != QueueKind::Side ==> w.side_queue_len == v.side_queue_len)
        }),
{
    let ev = RotatorDebugEvent::Dispatched { at, kind, action };
    let w = apply(v, ev);
    if v.timeline.len() >= MAX_TIMELINE {
        assert(w.timeline.drop_last() =~= v.timeline.skip(1));
    } else {
        assert(w.timeline.drop_last() =~= v.timeline);
    }
    if kind == QueueKind::Priority {
        let pred = crate::panel::label_differs(action.label@);
        let q = v.priority_queue;
        assert(w.priority_queue == q.filter(pred));
        q.lemma_filter_len(pred);
        assert forall|i: int| 0 <= i < w.priority_queue.len()
            implies (#[trigger] w.priority_queue[i]).label@ != action.label@ by {
            q.lemma_filter_pred(pred, i);
        }
        assert forall|i: int| 0 <= i < q.len() && (#[trigger] q[i]).label@ != action.label@
            implies w.priority_queue.contains(q[i]) by {
            q.lemma_filter_contains(pred, i);
        }
    }
}

/// A block report sets the block reason and is logged; nothing else changes.
pub proof fn lemma_blocked_effects(v: PanelView, at: u64, reason: BlockReason)
    ensures
        ({
            let ev = RotatorDebugEvent::Blocked { at, reason };
            let w = apply(v, ev);
            &&& w.player_block_reason == reason
            &&& logged(v.timeline, w.timeline, TimelineEntry { at_ms: at, event: ev, is_warn: false })
            &&& w.priority_queue == v.priority_queue
            &&& w.side_queue_len == v.side_queue_len
            &&& w.priority_actions == v.priority_actions
            &&& w.normal_index == v.normal_index
        }),
{
    let ev = RotatorDebugEvent::Blocked { at, reason };
    let w = apply(v, ev);
    if v.timeline.len() >= MAX_TIMELINE {
        assert(w.timeline.drop_last() =~= v.timeline.skip(1));
    } else {
        assert(w.timeline.drop_last() =~= v.timeline);
    }
}

} // verus!
