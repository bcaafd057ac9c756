//! The state a debug panel rebuilds from the rotator's events.

use vstd::prelude::*;

use crate::events::{
    ActionView, RotatorSnapshot, BlockReason, CondOutcome, PriorityActionView, QueueKind, RotatorDebugEvent,
};

verus! {

/// The timeline keeps at most this many entries; the oldest goes first.
pub const MAX_TIMELINE: usize = 200;

/// One line of the panel's timeline: the event it reports, when, and whether
/// it is shown as a warning.
#[derive(Debug)]
pub struct TimelineEntry {
    pub at_ms: u64,
    pub event: RotatorDebugEvent,
    pub is_warn: bool,
}

/// Local panel state rebuilt from incoming events.
#[derive(Debug)]
pub struct RotatorDebugState {
    pub priority_queue: Vec<ActionView>,
    pub side_queue_len: usize,
    pub normal_index: usize,
    pub normal_backward: bool,
    pub normal_actions: Vec<ActionView>,
    pub priority_actions: Vec<PriorityActionView>,
    pub player_block_reason: BlockReason,
    pub timeline: Vec<TimelineEntry>,
    pub enabled: bool,
    pub paused: bool,
}

/// What a `RotatorDebugState` holds, with its lists as sequences.
pub struct PanelView {
    pub priority_queue: Seq<ActionView>,
    pub side_queue_len: usize,
    pub normal_index: usize,
    pub normal_backward: bool,
    pub normal_actions: Seq<ActionView>,
    pub priority_actions: Seq<PriorityActionView>,
    pub player_block_reason: BlockReason,
    pub timeline: Seq<TimelineEntry>,
    pub enabled: bool,
    pub paused: bool,
}

impl View for RotatorDebugState {
    type V = PanelView;

    open spec fn view(&self) -> PanelView {
        PanelView {
            priority_queue: self.priority_queue@,
            side_queue_len: self.side_queue_len,
            normal_index: self.normal_index,
            normal_backward: self.normal_backward,
            normal_actions: self.normal_actions@,
            priority_actions: self.priority_actions@,
            player_block_reason: self.player_block_reason,
            timeline: self.timeline@,
            enabled: self.enabled,
            paused: self.paused,
        }
    }
}

/// The panel state before any event: empty lists, zero counters, not blocked,
/// disabled and not paused.
pub open spec fn initial_view() -> PanelView {
    PanelView {
        priority_queue: Seq::empty(),
        side_queue_len: 0,
        normal_index: 0,
        normal_backward: false,
        normal_actions: Seq::empty(),
        priority_actions: Seq::empty(),
        player_block_reason: BlockReason::NotBlocked,
        timeline: Seq::empty(),
        enabled: false,
        paused: false,
    }
}

/// The timeline after `entry` is appended: when it already holds
/// `MAX_TIMELINE` entries or more, its first entry is removed first.
pub open spec fn push_capped(timeline: Seq<TimelineEntry>, entry: TimelineEntry) -> Seq<TimelineEntry> {
    if timeline.len() >= MAX_TIMELINE {
        timeline.remove(0).push(entry)
    } else {
        timeline.push(entry)
    }
}

/// `i` is the first position of `actions` whose action has the id `id`.
pub open spec fn is_first_with_id(actions: Seq<PriorityActionView>, id: Option<u32>, i: int) -> bool {
    &&& 0 <= i < actions.len()
    &&& actions[i].action.id == id
    &&& forall|j: int| 0 <= j < i ==> actions[j].action.id != id
}

/// The first position of `actions` whose action has the id `id`, if any.
pub open spec fn first_with_id(actions: Seq<PriorityActionView>, id: Option<u32>) -> Option<int> {
    if exists|i: int| is_first_with_id(actions, id, i) {
        Some(choose|i: int| is_first_with_id(actions, id, i))
    } else {
        None
    }
}

/// The priority actions after a condition evaluation of the action with id
/// `id`: the first entry with that id gets the new ignoring flag and
/// cooldown; without such an entry nothing changes.
pub open spec fn update_cooldown(
    actions: Seq<PriorityActionView>,
    id: Option<u32>,
    ignoring: bool,
    cooldown: Option<i64>,
) -> Seq<PriorityActionView> {
    match first_with_id(actions, id) {
        Some(i) => actions.update(
            i,
            PriorityActionView { ignoring, cooldown_remaining_ms: cooldown, ..actions[i] },
        ),
        None => actions,
    }
}

/// Holds of the actions whose label is not `label`.
pub open spec fn label_differs(label: Seq<char>) -> spec_fn(ActionView) -> bool {
    |a: ActionView| a.label@ != label
}

/// The priority queue without the actions labelled `label`.
pub open spec fn without_label(queue: Seq<ActionView>, label: Seq<char>) -> Seq<ActionView> {
    queue.filter(label_differs(label))
}

/// The event can be applied without the side queue counter overflowing.
pub open spec fn can_apply(v: PanelView, ev: RotatorDebugEvent) -> bool {
    match ev {
        RotatorDebugEvent::Enqueued { kind: QueueKind::Side, .. } => v.side_queue_len < usize::MAX,
        _ => true,
    }
}

/// The panel state after one event is applied.
pub open spec fn apply(v: PanelView, ev: RotatorDebugEvent) -> PanelView {
    match ev {
        RotatorDebugEvent::Snapshot(snap) => PanelView {
            priority_queue: snap.priority_queue@,
            side_queue_len: snap.side_queue_len,
            normal_index: snap.normal_index,
            normal_backward: snap.normal_backward,
            normal_actions: snap.normal_actions@,
            priority_actions: snap.priority_actions@,
            player_block_reason: snap.player_block_reason,
            ..v
        },
        RotatorDebugEvent::Enqueued { at, kind, action, to_front, .. } => {
            let timeline = push_capped(v.timeline, TimelineEntry { at_ms: at, event: ev, is_warn: false });
            match kind {
                QueueKind::Priority => PanelView {
                    priority_queue: if to_front {
                        v.priority_queue.insert(0, action)
                    } else {
                        v.priority_queue.push(action)
                    },
                    timeline,
                    ..v
                },
                QueueKind::Side => PanelView {
                    side_queue_len: (v.side_queue_len + 1) as usize,
                    timeline,
                    ..v
                },
                QueueKind::Normal => PanelView { timeline, ..v },
            }
        },
        RotatorDebugEvent::Dispatched { at, kind, action } => {
            let timeline = push_capped(v.timeline, TimelineEntry { at_ms: at, event: ev, is_warn: false });
            match kind {
                QueueKind::Priority => PanelView {
                    priority_queue: without_label(v.priority_queue, action.label@),
                    timeline,
                    ..v
                },
                QueueKind::Side => PanelView {
                    side_queue_len: if v.side_queue_len == 0 { 0 } else { (v.side_queue_len - 1) as usize },
                    timeline,
                    ..v
                },
                QueueKind::Normal => PanelView { timeline, ..v },
            }
        },
        RotatorDebugEvent::Blocked { at, reason } => PanelView {
            player_block_reason: reason,
            timeline: push_capped(v.timeline, TimelineEntry { at_ms: at, event: ev, is_warn: false }),
            ..v
        },
        RotatorDebugEvent::ConditionEvaluated { at, action, outcome, cooldown_remaining_ms } => {
            let warn = outcome == CondOutcome::IgnoredWhileInQueue;
            PanelView {
                timeline: if warn {
                    push_capped(v.timeline, TimelineEntry { at_ms: at, event: ev, is_warn: true })
                } else {
                    v.timeline
                },
                priority_actions: update_cooldown(v.priority_actions, action.id, warn, cooldown_remaining_ms),
                ..v
            }
        },
        RotatorDebugEvent::NormalAdvanced { index, backward, .. } => PanelView {
            normal_index: index,
            normal_backward: backward,
            ..v
        },
    }
}

/// The panel state after an event arrives: it always updates the panel's
/// state as `apply` does, and while paused the timeline is left as it was.
pub open spec fn receive(v: PanelView, ev: RotatorDebugEvent) -> PanelView {
    if v.paused {
        PanelView { timeline: v.timeline, ..apply(v, ev) }
    } else {
        apply(v, ev)
    }
}

/// The event can be received without the side queue counter overflowing.
pub open spec fn can_receive(v: PanelView, ev: RotatorDebugEvent) -> bool {
    can_apply(v, ev)
}

/// The panel state after each of `evs` arrives in turn.
pub open spec fn receive_all(v: PanelView, evs: Seq<RotatorDebugEvent>) -> PanelView
    decreases evs.len(),
{
    if evs.len() == 0 {
        v
    } else {
        receive(receive_all(v, evs.drop_last()), evs.last())
    }
}

/// The panel state after each of `evs` is applied in turn.
pub open spec fn apply_all(v: PanelView, evs: Seq<RotatorDebugEvent>) -> PanelView
    decreases evs.len(),
{
    if evs.len() == 0 {
        v
    } else {
        apply(apply_all(v, evs.drop_last()), evs.last())
    }
}

/// An event changes everything but the timeline in the same way whatever the
/// timeline holds.
pub proof fn lemma_apply_ignores_timeline(v: PanelView, timeline: Seq<TimelineEntry>, ev: RotatorDebugEvent)
    ensures
        (PanelView { timeline: v.timeline, ..apply(PanelView { timeline, ..v }, ev) })
            == (PanelView { timeline: v.timeline, ..apply(v, ev) }),
{
}

/// While the panel is paused, a batch of events updates its state exactly as
/// applying them would, and leaves the timeline as it was.
pub proof fn lemma_paused_batch(v: PanelView, evs: Seq<RotatorDebugEvent>)
    requires
        v.paused,
    ensures
        receive_all(v, evs) == (PanelView { timeline: v.timeline, ..apply_all(v, evs) }),
        receive_all(v, evs).timeline == v.timeline,
        receive_all(v, evs).paused,
        receive_all(v, evs).enabled == v.enabled,
    decreases evs.len(),
{
    if evs.len() > 0 {
        let before = evs.drop_last();
        lemma_paused_batch(v, before);
        let a = apply_all(v, before);
        lemma_apply_ignores_timeline(a, v.timeline, evs.last());
        lemma_apply_frame(a, evs.last());
    }
}

/// What one event leaves alone: the enabled and paused flags, and the normal
/// actions unless it is a snapshot; the timeline grows by one entry at most
/// and never past `MAX_TIMELINE` entries.
pub proof fn lemma_apply_frame(v: PanelView, ev: RotatorDebugEvent)
    ensures
        apply(v, ev).enabled == v.enabled,
        apply(v, ev).paused == v.paused,
        !(ev is Snapshot) ==> apply(v, ev).normal_actions == v.normal_actions,
        apply(v, ev).timeline.len() <= v.timeline.len() + 1,
        v.timeline.len() <= MAX_TIMELINE ==> apply(v, ev).timeline.len() <= MAX_TIMELINE,
{
}

/// The timeline never grows past `MAX_TIMELINE` entries: a batch of events
/// received by a panel whose timeline fits leaves a timeline that fits.
pub proof fn lemma_timeline_bounded(v: PanelView, evs: Seq<RotatorDebugEvent>)
    requires
        v.timeline.len() <= MAX_TIMELINE,
    ensures
        receive_all(v, evs).timeline.len() <= MAX_TIMELINE,
    decreases evs.len(),
{
    if evs.len() > 0 {
        lemma_timeline_bounded(v, evs.drop_last());
    }
}

/// A side-queue enqueue followed by a side-queue dispatch leaves the side
/// queue length where it was.
pub proof fn lemma_side_round_trip(v: PanelView, enqueued: RotatorDebugEvent, dispatched: RotatorDebugEvent)
    requires
        !v.paused,
        v.side_queue_len < usize::MAX,
        enqueued matches RotatorDebugEvent::Enqueued { kind: QueueKind::Side, .. },
        dispatched matches RotatorDebugEvent::Dispatched { kind: QueueKind::Side, .. },
    ensures
        receive(receive(v, enqueued), dispatched).side_queue_len == v.side_queue_len,
{
}

/// Dispatching a priority action removes every action with its label from
/// the priority queue and keeps the others in order; so an action enqueued
/// (at either end) and then dispatched leaves the queue as it would be with
/// that label removed.
pub proof fn lemma_priority_round_trip(v: PanelView, enqueued: RotatorDebugEvent, dispatched: RotatorDebugEvent)
    requires
        !v.paused,
        enqueued matches RotatorDebugEvent::Enqueued { kind: QueueKind::Priority, .. },
        dispatched matches RotatorDebugEvent::Dispatched { kind: QueueKind::Priority, .. },
        enqueued->Enqueued_action.label@ == dispatched->Dispatched_action.label@,
    ensures
        receive(receive(v, enqueued), dispatched).priority_queue
            == without_label(v.priority_queue, dispatched->Dispatched_action.label@),
        forall|i: int| 0 <= i < receive(v, dispatched).priority_queue.len()
            ==> (#[trigger] receive(v, dispatched).priority_queue[i]).label@ != dispatched->Dispatched_action.label@,
{
    let label = dispatched->Dispatched_action.label@;
    let a = enqueued->Enqueued_action;
    let q = v.priority_queue;
    let pred = label_differs(label);
    assert(without_label(q, label) == q.filter(pred));
    assert(!pred(a));
    q.lemma_filter_push(a, pred);
    assert(without_label(q.push(a), label) == q.push(a).filter(pred));
    q.lemma_filter_prepend(a, pred);
    assert(q.insert(0, a) =~= seq![a] + q);
    assert(without_label(q.insert(0, a), label) == (seq![a] + q).filter(pred));
    assert(Seq::<ActionView>::empty() + q.filter(pred) =~= q.filter(pred));
    let mid = receive(v, enqueued);
    assert(mid.priority_queue == q.push(a) || mid.priority_queue == q.insert(0, a));
    assert(receive(mid, dispatched).priority_queue == without_label(mid.priority_queue, label));
    let after = receive(v, dispatched).priority_queue;
    assert(after == q.filter(pred));
    assert forall|i: int| 0 <= i < after.len() implies (#[trigger] after[i]).label@ != label by {
        q.lemma_filter_pred(pred, i);
    }
}

/// A snapshot replaces the queues, counters, per-action views and block
/// reason with its own, whether or not the panel is paused, and leaves the
/// timeline and flags alone.
pub proof fn lemma_snapshot_overrides(v: PanelView, snap: RotatorSnapshot)
    ensures
        ({
            let w = receive(v, RotatorDebugEvent::Snapshot(snap));
            &&& w.priority_queue == snap.priority_queue@
            &&& w.side_queue_len == snap.side_queue_len
            &&& w.normal_index == snap.normal_index
            &&& w.normal_backward == snap.normal_backward
            &&& w.normal_actions == snap.normal_actions@
            &&& w.priority_actions == snap.priority_actions@
            &&& w.player_block_reason == snap.player_block_reason
            &&& w.timeline == v.timeline
            &&& w.paused == v.paused
            &&& w.enabled == v.enabled
        }),
{
}

fn same_id(a: Option<u32>, b: Option<u32>) -> (r: bool)
    ensures
        r == (a == b),
{
    match (a, b) {
        (Some(x), Some(y)) => x == y,
        (None, None) => true,
        _ => false,
    }
}

fn same_label(a: &String, b: &String) -> (r: bool)
    ensures
        r == (a@ == b@),
{
    *a == *b
}

/// The queue without the actions labelled `label`, as a new vector.
fn kept_without_label(queue: &Vec<ActionView>, label: &String) -> (kept: Vec<ActionView>)
    ensures
        kept@ == without_label(queue@, label@),
{
    let n = queue.len();
    let mut kept: Vec<ActionView> = Vec::new();
    let mut i: usize = 0;
    while i < n
        invariant
            n == queue@.len(),
            i <= n,
            kept@ == without_label(queue@.take(i as int), label@),
        decreases n - i,
    {
        let ghost pred = label_differs(label@);
        let ghost prefix = queue@.take(i as int);
        let ghost next = queue@.take(i + 1);
        assert(next.drop_last() =~= prefix);
        assert(next.filter(pred) == if pred(next.last()) {
            prefix.filter(pred).push(next.last())
        } else {
            prefix.filter(pred)
        }) by {
            reveal_with_fuel(Seq::filter, 1);
        }
        assert(next.last() == queue@[i as int]);
        if !same_label(&queue[i].label, label) {
            let item = queue[i].clone();
            assert(item == queue@[i as int]);
            kept.push(item);
        }
        i = i + 1;
    }
    assert(queue@.take(n as int) =~= queue@);
    kept
}

/// The first position in `actions` whose action has the id `id`, if any.
fn position_of_id(actions: &Vec<PriorityActionView>, id: Option<u32>) -> (pos: Option<usize>)
    ensures
        match pos {
            Some(i) => first_with_id(actions@, id) == Some(i as int),
            None => first_with_id(actions@, id) is None,
        },
{
    let n = actions.len();
    let mut i: usize = 0;
    while i < n
        invariant
            n == actions@.len(),
            i <= n,
            forall|j: int| 0 <= j < i ==> actions@[j].action.id != id,
        decreases n - i,
    {
        if same_id(actions[i].action.id, id) {
            assert(is_first_with_id(actions@, id, i as int));
            assert forall|k: int| is_first_with_id(actions@, id, k) implies k == i by {
                if k > i {
                    assert(actions@[i as int].action.id == id);
                }
            }
            return Some(i);
        }
        i = i + 1;
    }
    assert(!exists|k: int| is_first_with_id(actions@, id, k));
    None
}

impl Default for RotatorDebugState {
    fn default() -> (s: Self)
        ensures
            s@ == initial_view(),
    {
        RotatorDebugState {
            priority_queue: Vec::new(),
            side_queue_len: 0,
            normal_index: 0,
            normal_backward: false,
            normal_actions: Vec::new(),
            priority_actions: Vec::new(),
            player_block_reason: BlockReason::NotBlocked,
            timeline: Vec::new(),
            enabled: false,
            paused: false,
        }
    }
}

impl RotatorDebugState {
    /// Appends a timeline entry, dropping the oldest one when the timeline is full.
    pub fn push_timeline(&mut self, entry: TimelineEntry)
        ensures
            final(self)@ == (PanelView { timeline: push_capped(old(self)@.timeline, entry), ..old(self)@ }),
            old(self)@.timeline.len() <= MAX_TIMELINE ==> final(self)@.timeline.len() <= MAX_TIMELINE,
    {
        if self.timeline.len() >= MAX_TIMELINE {
            self.timeline.remove(0);
        }
        self.timeline.push(entry);
    }

    /// Removes every action labelled `label` from the priority queue.
    fn remove_label(&mut self, label: &String)
        ensures
            final(self)@ == (PanelView { priority_queue: without_label(old(self)@.priority_queue, label@), ..old(self)@ }),
    {
        self.priority_queue = kept_without_label(&self.priority_queue, label);
    }

    /// Gives the first priority action with id `id` the new ignoring flag and cooldown.
    fn set_cooldown(&mut self, id: Option<u32>, ignoring: bool, cooldown: Option<i64>)
        ensures
            final(self)@ == (PanelView {
                priority_actions: update_cooldown(old(self)@.priority_actions, id, ignoring, cooldown),
                ..old(self)@
            }),
    {
        let ghost actions = self.priority_actions@;
        match position_of_id(&self.priority_actions, id) {
            Some(i) => {
                let old_entry = self.priority_actions[i].clone();
                let entry = PriorityActionView {
                    action: old_entry.action,
                    ignoring,
                    cooldown_remaining_ms: cooldown,
                    in_queue_or_executing: old_entry.in_queue_or_executing,
                };
                self.priority_actions.set(i, entry);
                assert(self.priority_actions@ =~= update_cooldown(actions, id, ignoring, cooldown));
            },
            None => {},
        }
    }

    /// Updates the panel state with one event. Every event but a snapshot or a
    /// normal-traversal move that does not evaluate a condition quietly is also
    /// recorded on the timeline.
    pub fn apply_event(&mut self, ev: &RotatorDebugEvent)
        requires
            can_apply(old(self)@, *ev),
        ensures
            final(self)@ == apply(old(self)@, *ev),
            old(self)@.timeline.len() <= MAX_TIMELINE ==> final(self)@.timeline.len() <= MAX_TIMELINE,
    {
        match ev {
            RotatorDebugEvent::Snapshot(snap) => {
                let copy = snap.clone();
                self.priority_queue = copy.priority_queue;
                self.side_queue_len = copy.side_queue_len;
                self.normal_index = copy.normal_index;
                self.normal_backward = copy.normal_backward;
                self.normal_actions = copy.normal_actions;
                self.priority_actions = copy.priority_actions;
                self.player_block_reason = copy.player_block_reason;
            },
            RotatorDebugEvent::Enqueued { at, kind, action, to_front, .. } => {
                self.push_timeline(TimelineEntry { at_ms: *at, event: ev.clone(), is_warn: false });
                match kind {
                    QueueKind::Priority => {
                        if *to_front {
                            self.priority_queue.insert(0, action.clone());
                        } else {
                            self.priority_queue.push(action.clone());
                        }
                    },
                    QueueKind::Side => {
                        self.side_queue_len = self.side_queue_len + 1;
                    },
                    QueueKind::Normal => {},
                }
            },
            RotatorDebugEvent::Dispatched { at, kind, action } => {
                self.push_timeline(TimelineEntry { at_ms: *at, event: ev.clone(), is_warn: false });
                match kind {
                    QueueKind::Priority => {
                        self.remove_label(&action.label);
                    },
                    QueueKind::Side => {
                        self.side_queue_len = self.side_queue_len.saturating_sub(1);
                    },
                    QueueKind::Normal => {},
                }
            },
            RotatorDebugEvent::Blocked { at, reason } => {
                self.player_block_reason = *reason;
                self.push_timeline(TimelineEntry { at_ms: *at, event: ev.clone(), is_warn: false });
            },
            RotatorDebugEvent::ConditionEvaluated { at, action, outcome, cooldown_remaining_ms } => {
                let is_warn = match outcome {
                    CondOutcome::IgnoredWhileInQueue => true,
                    _ => false,
                };
                if is_warn {
                    self.push_timeline(TimelineEntry { at_ms: *at, event: ev.clone(), is_warn: true });
                }
                self.set_cooldown(action.id, is_warn, *cooldown_remaining_ms);
            },
            RotatorDebugEvent::NormalAdvanced { index, backward, .. } => {
                self.normal_index = *index;
                self.normal_backward = *backward;
            },
        }
    }

    /// Whether `ev` can be received without the side queue counter overflowing.
    pub fn accepts(&self, ev: &RotatorDebugEvent) -> (ok: bool)
        ensures
            ok == can_receive(self@, *ev),
    {
        match ev {
            RotatorDebugEvent::Enqueued { kind: QueueKind::Side, .. } => self.side_queue_len < usize::MAX,
            _ => true,
        }
    }

    /// Handles one incoming event: it always updates the panel's state, and
    /// reaches the timeline only while the panel is not paused.
    pub fn receive(&mut self, ev: &RotatorDebugEvent)
        requires
            can_receive(old(self)@, *ev),
        ensures
            final(self)@ == receive(old(self)@, *ev),
            old(self)@.timeline.len() <= MAX_TIMELINE ==> final(self)@.timeline.len() <= MAX_TIMELINE,
    {
        if self.paused {
            let mut timeline: Vec<TimelineEntry> = Vec::new();
            std::mem::swap(&mut timeline, &mut self.timeline);
            let ghost cleared = self@;
            self.apply_event(ev);
            self.timeline = timeline;
            proof {
                lemma_apply_ignores_timeline(old(self)@, Seq::empty(), *ev);
                assert(cleared == (PanelView { timeline: Seq::empty(), ..old(self)@ }));
            }
        } else {
            self.apply_event(ev);
        }
    }

    /// Handles a batch of events in order. It stops before the first event
    /// that would overflow the side queue counter and returns how many events
    /// it handled.
    pub fn receive_batch(&mut self, events: &Vec<RotatorDebugEvent>) -> (handled: usize)
        ensures
            handled <= events.len(),
            final(self)@ == receive_all(old(self)@, events@.take(handled as int)),
            handled < events.len() ==> !can_receive(final(self)@, events@[handled as int]),
            old(self)@.timeline.len() <= MAX_TIMELINE ==> final(self)@.timeline.len() <= MAX_TIMELINE,
    {
        let n = events.len();
        let mut i: usize = 0;
        while i < n
            invariant
                n == events@.len(),
                i <= n,
                self@ == receive_all(old(self)@, events@.take(i as int)),
                old(self)@.timeline.len() <= MAX_TIMELINE ==> self@.timeline.len() <= MAX_TIMELINE,
            decreases n - i,
        {
            if !self.accepts(&events[i]) {
                return i;
            }
            self.receive(&events[i]);
            assert(events@.take(i + 1).drop_last() =~= events@.take(i as int));
            i = i + 1;
        }
        assert(events@.take(n as int) =~= events@);
        n
    }

    /// The enabled flag that the Enable/Disable control asks the rotator for,
    /// and then sets on the panel: the opposite of the current one.
    pub fn enabled_after_toggle(&self) -> (next: bool)
        ensures
            next == !self.enabled,
    {
        !self.enabled
    }

    /// Turns the panel on or off; turning it off resets it to its initial state.
    pub fn set_enabled(&mut self, on: bool)
        ensures
            on ==> final(self)@ == (PanelView { enabled: true, ..old(self)@ }),
            !on ==> final(self)@ == initial_view(),
    {
        self.enabled = on;
        if !on {
            *self = RotatorDebugState::default();
        }
    }

    /// Pauses or resumes the timeline.
    pub fn toggle_paused(&mut self)
        ensures
            final(self)@ == (PanelView { paused: !old(self)@.paused, ..old(self)@ }),
    {
        self.paused = !self.paused;
    }
}

} // verus!
