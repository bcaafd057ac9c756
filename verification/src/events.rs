//! The events a rotator reports for its debug view, and the values they carry.

use vstd::prelude::*;

verus! {

/// Elapsed milliseconds since the rotator was started, used as a time axis for the UI.
pub type ElapsedMs = u64;

/// Which of the three queues an action belongs to.
#[derive(Debug, Clone, Copy, PartialEq, Eq, Structural)]
pub enum QueueKind {
    /// The priority actions queue.
    Priority,
    /// The priority side queue (one-shot injected actions).
    Side,
    /// Normal traversal (start to end, reverse, auto mobbing, ping pong).
    Normal,
}

/// Lightweight identifier for an action shown in the UI.
#[derive(Debug)]
pub struct ActionView {
    /// Priority/normal action id; `None` for side-queue actions without an id.
    pub id: Option<u32>,
    /// Human-readable label, e.g. `"Buff(Rune)"`, `"ErdaShower"`, `"SolveRune"`.
    pub label: String,
    /// Stringified condition kind, e.g. `"EveryMillis(30000)"`.
    pub condition_kind: String,
    /// Whether the action was queued to the front.
    pub queue_to_front: bool,
}

impl Clone for ActionView {
    fn clone(&self) -> (res: Self)
        ensures
            res == *self,
    {
        ActionView {
            id: self.id,
            label: self.label.clone(),
            condition_kind: self.condition_kind.clone(),
            queue_to_front: self.queue_to_front,
        }
    }
}

/// Result of evaluating an action's condition this tick.
#[derive(Debug, Clone, Copy, PartialEq, Eq, Structural)]
pub enum CondOutcome {
    Queue,
    Skip,
    Ignore,
    /// Condition was not called because the action is ignoring while queued.
    IgnoredWhileInQueue,
}

/// Why the priority queue dispatch was blocked this tick.
#[derive(Debug, Clone, Copy, PartialEq, Eq, Structural)]
pub enum BlockReason {
    /// Dispatch was not blocked.
    NotBlocked,
    CannotOverrideCurrentState,
    NormalLinkedActionActive,
    PriorityLinkedActionExecuting,
    SideLoadedActionExecuting,
    QueueToFrontHeld,
}

impl Default for BlockReason {
    fn default() -> (r: Self)
        ensures
            r == BlockReason::NotBlocked,
    {
        BlockReason::NotBlocked
    }
}

/// Per-priority-action view for the condition/cooldown panel.
#[derive(Debug)]
pub struct PriorityActionView {
    pub action: ActionView,
    pub ignoring: bool,
    /// Milliseconds until the action can be queued again.
    pub cooldown_remaining_ms: Option<i64>,
    pub in_queue_or_executing: bool,
}

impl Clone for PriorityActionView {
    fn clone(&self) -> (res: Self)
        ensures
            res == *self,
    {
        PriorityActionView {
            action: self.action.clone(),
            ignoring: self.ignoring,
            cooldown_remaining_ms: self.cooldown_remaining_ms,
            in_queue_or_executing: self.in_queue_or_executing,
        }
    }
}

/// Full state snapshot for initial display or manual refresh.
#[derive(Debug)]
pub struct RotatorSnapshot {
    pub at: ElapsedMs,
    pub priority_queue: Vec<ActionView>,
    pub side_queue_len: usize,
    pub normal_index: usize,
    pub normal_backward: bool,
    pub normal_actions: Vec<ActionView>,
    pub priority_actions: Vec<PriorityActionView>,
    pub player_block_reason: BlockReason,
}

impl RotatorSnapshot {
    /// Two snapshots hold the same values: equal scalars, and lists with equal contents.
    pub open spec fn same(&self, other: &RotatorSnapshot) -> bool {
        &&& self.at == other.at
        &&& self.priority_queue@ == other.priority_queue@
        &&& self.side_queue_len == other.side_queue_len
        &&& self.normal_index == other.normal_index
        &&& self.normal_backward == other.normal_backward
        &&& self.normal_actions@ == other.normal_actions@
        &&& self.priority_actions@ == other.priority_actions@
        &&& self.player_block_reason == other.player_block_reason
    }
}

impl Clone for RotatorSnapshot {
    fn clone(&self) -> (res: Self)
        ensures
            res.same(self),
    {
        let priority_queue = self.priority_queue.clone();
        let normal_actions = self.normal_actions.clone();
        let priority_actions = self.priority_actions.clone();
        assert(priority_queue@ =~= self.priority_queue@);
        assert(normal_actions@ =~= self.normal_actions@);
        assert(priority_actions@ =~= self.priority_actions@);
        RotatorSnapshot {
            at: self.at,
            priority_queue,
            side_queue_len: self.side_queue_len,
            normal_index: self.normal_index,
            normal_backward: self.normal_backward,
            normal_actions,
            priority_actions,
            player_block_reason: self.player_block_reason,
        }
    }
}

/// A single debug event emitted by the rotator.
#[derive(Debug)]
pub enum RotatorDebugEvent {
    /// An action's condition was evaluated (or skipped because it is ignoring).
    ConditionEvaluated {
        at: ElapsedMs,
        action: ActionView,
        outcome: CondOutcome,
        /// Milliseconds until the action can be queued again (>0 = on cooldown).
        /// `None` when the condition has no cooldown semantics.
        cooldown_remaining_ms: Option<i64>,
    },
    /// An action was pushed into a queue.
    Enqueued {
        at: ElapsedMs,
        kind: QueueKind,
        action: ActionView,
        /// Queue length after the push.
        queue_len: usize,
        to_front: bool,
    },
    /// An action was handed to the player for execution.
    Dispatched { at: ElapsedMs, kind: QueueKind, action: ActionView },
    /// The priority dispatch was blocked this tick.
    Blocked { at: ElapsedMs, reason: BlockReason },
    /// Normal traversal advanced to a new index.
    NormalAdvanced { at: ElapsedMs, index: usize, backward: bool, action: ActionView },
    /// Full snapshot sent on first connection or refresh.
    Snapshot(RotatorSnapshot),
}

impl RotatorDebugEvent {
    /// Two events hold the same values: snapshots compare by `RotatorSnapshot::same`,
    /// every other event by equality.
    pub open spec fn same(&self, other: &RotatorDebugEvent) -> bool {
        match (self, other) {
            (RotatorDebugEvent::Snapshot(a), RotatorDebugEvent::Snapshot(b)) => a.same(b),
            _ => *self == *other,
        }
    }
}

impl Clone for RotatorDebugEvent {
    fn clone(&self) -> (res: Self)
        ensures
            res.same(self),
    {
        match self {
            RotatorDebugEvent::ConditionEvaluated {
                at,
                action,
                outcome,
                cooldown_remaining_ms,
            } => RotatorDebugEvent::ConditionEvaluated {
                at: *at,
                action: action.clone(),
                outcome: *outcome,
                cooldown_remaining_ms: *cooldown_remaining_ms,
            },
            RotatorDebugEvent::Enqueued { at, kind, action, queue_len, to_front } => {
                RotatorDebugEvent::Enqueued {
                    at: *at,
                    kind: *kind,
                    action: action.clone(),
                    queue_len: *queue_len,
                    to_front: *to_front,
                }
            },
            RotatorDebugEvent::Dispatched { at, kind, action } => {
                RotatorDebugEvent::Dispatched { at: *at, kind: *kind, action: action.clone() }
            },
            RotatorDebugEvent::Blocked { at, reason } => {
                RotatorDebugEvent::Blocked { at: *at, reason: *reason }
            },
            RotatorDebugEvent::NormalAdvanced { at, index, backward, action } => {
                RotatorDebugEvent::NormalAdvanced {
                    at: *at,
                    index: *index,
                    backward: *backward,
                    action: action.clone(),
                }
            },
            RotatorDebugEvent::Snapshot(snap) => RotatorDebugEvent::Snapshot(snap.clone()),
        }
    }
}

} // verus!
