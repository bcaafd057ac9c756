//! The ring buffer that collects rotator debug events.

use std::collections::VecDeque;
use std::time::Instant;
use vstd::prelude::*;

use crate::clock::{duration_as_millis, elapsed_ms_from_millis, instant_elapsed, instant_now};
use crate::events::{ElapsedMs, RotatorDebugEvent};

verus! {

broadcast use vstd::std_specs::vecdeque::group_vec_dequeue_axioms;

/// The last `n` elements of `s` (all of `s` when it is shorter).
pub open spec fn latest(s: Seq<RotatorDebugEvent>, n: nat) -> Seq<RotatorDebugEvent> {
    if s.len() <= n {
        s
    } else {
        s.skip(s.len() - n)
    }
}

/// The history after one event is recorded into a ring buffer of `capacity`
/// slots: the newest `capacity` events of the history followed by the event.
/// A buffer of zero slots holds nothing.
pub open spec fn record(history: Seq<RotatorDebugEvent>, capacity: nat, ev: RotatorDebugEvent) -> Seq<RotatorDebugEvent> {
    latest(history.push(ev), capacity)
}

/// The history after each of `evs` is recorded in turn.
pub open spec fn record_all(history: Seq<RotatorDebugEvent>, capacity: nat, evs: Seq<RotatorDebugEvent>) -> Seq<RotatorDebugEvent>
    decreases evs.len(),
{
    if evs.len() == 0 {
        history
    } else {
        record(record_all(history, capacity, evs.drop_last()), capacity, evs.last())
    }
}

/// Recording keeps the newest events: starting from a history that fits in
/// the buffer, recording `evs` one after another leaves exactly the last
/// `capacity` events of the history followed by `evs`, oldest first (all of
/// them when there are no more than `capacity`, none when `capacity` is zero).
pub proof fn lemma_record_keeps_latest(history: Seq<RotatorDebugEvent>, capacity: nat, evs: Seq<RotatorDebugEvent>)
    requires
        history.len() <= capacity,
    ensures
        record_all(history, capacity, evs) == latest(history + evs, capacity),
    decreases evs.len(),
{
    if evs.len() == 0 {
        assert(history + evs =~= history);
    } else {
        let before = evs.drop_last();
        let e = evs.last();
        lemma_record_keeps_latest(history, capacity, before);
        let s = history + before;
        assert(history + evs =~= s.push(e));
        let r = latest(s, capacity);
        if s.len() > capacity {
            assert(r.push(e).skip(1) =~= s.push(e).skip(s.len() + 1 - capacity));
        } else if s.len() == capacity {
            assert(r == s);
            assert(latest(s.push(e), capacity) =~= s.push(e).skip(1));
        } else {
            assert(r == s);
        }
    }
}

/// What a sink holds, as plain values.
pub struct SinkState {
    pub enabled: bool,
    pub dirty: bool,
    pub history: Seq<RotatorDebugEvent>,
    pub capacity: nat,
}

/// A call on a sink that changes it.
pub enum SinkCall {
    SetEnabled(bool),
    Emit(RotatorDebugEvent),
    Drain,
}

/// A freshly made sink of the given capacity: disabled, clean and empty.
pub open spec fn initial_sink(capacity: nat) -> SinkState {
    SinkState { enabled: false, dirty: false, history: Seq::empty(), capacity }
}

/// The sink after one call.
pub open spec fn sink_step(s: SinkState, call: SinkCall) -> SinkState {
    match call {
        SinkCall::SetEnabled(on) => if on {
            SinkState { enabled: true, ..s }
        } else {
            SinkState { enabled: false, dirty: false, history: Seq::empty(), ..s }
        },
        SinkCall::Emit(ev) => if s.enabled {
            SinkState { dirty: true, history: record(s.history, s.capacity, ev), ..s }
        } else {
            s
        },
        SinkCall::Drain => SinkState { dirty: false, ..s },
    }
}

/// The sink after each of `calls` in turn.
pub open spec fn sink_run(s: SinkState, calls: Seq<SinkCall>) -> SinkState
    decreases calls.len(),
{
    if calls.len() == 0 {
        s
    } else {
        sink_step(sink_run(s, calls.drop_last()), calls.last())
    }
}

/// The call clears the dirty flag: a drain, or disabling the sink.
pub open spec fn clears(call: SinkCall) -> bool {
    call is Drain || call == SinkCall::SetEnabled(false)
}

/// Some call of `calls` is an event emitted while the sink was enabled, with
/// no drain and no disabling after it.
pub open spec fn emitted_since_clear(s: SinkState, calls: Seq<SinkCall>) -> bool {
    exists|i: int|
        0 <= i < calls.len() && (#[trigger] calls[i]) is Emit && sink_run(s, calls.take(i)).enabled
            && forall|j: int| i < j < calls.len() ==> !clears(#[trigger] calls[j])
}

/// A sink is dirty exactly when, since it was made, last drained or last
/// disabled, an event was emitted while it was enabled.
pub proof fn lemma_dirty_iff_emitted(s: SinkState, calls: Seq<SinkCall>)
    requires
        !s.dirty,
    ensures
        sink_run(s, calls).dirty <==> emitted_since_clear(s, calls),
    decreases calls.len(),
{
    if calls.len() > 0 {
        let before = calls.drop_last();
        let last = calls.last();
        let n = calls.len() - 1;
        lemma_dirty_iff_emitted(s, before);
        assert(calls.take(n) =~= before);
        assert forall|i: int| 0 <= i < n implies calls.take(i) == before.take(i) && calls[i] == before[i] by {
            assert(calls.take(i) =~= before.take(i));
        }
        if clears(last) {
            if emitted_since_clear(s, calls) {
                let i = choose|i: int|
                    0 <= i < calls.len() && (#[trigger] calls[i]) is Emit && sink_run(s, calls.take(i)).enabled
                        && forall|j: int| i < j < calls.len() ==> !clears(#[trigger] calls[j]);
                assert(i == n || !clears(calls[n]));
            }
        } else if last is Emit && sink_run(s, before).enabled {
            assert(calls[n] is Emit && sink_run(s, calls.take(n)).enabled);
        } else {
            if emitted_since_clear(s, calls) {
                let i = choose|i: int|
                    0 <= i < calls.len() && (#[trigger] calls[i]) is Emit && sink_run(s, calls.take(i)).enabled
                        && forall|j: int| i < j < calls.len() ==> !clears(#[trigger] calls[j]);
                assert(i < n);
                assert(before[i] is Emit && sink_run(s, before.take(i)).enabled);
                assert forall|j: int| i < j < before.len() implies !clears(#[trigger] before[j]) by {
                    assert(before[j] == calls[j]);
                }
            }
            if emitted_since_clear(s, before) {
                let i = choose|i: int|
                    0 <= i < before.len() && (#[trigger] before[i]) is Emit && sink_run(s, before.take(i)).enabled
                        && forall|j: int| i < j < before.len() ==> !clears(#[trigger] before[j]);
                assert(calls[i] is Emit && sink_run(s, calls.take(i)).enabled);
                assert forall|j: int| i < j < calls.len() implies !clears(#[trigger] calls[j]) by {
                    if j < n {
                        assert(before[j] == calls[j]);
                    }
                }
            }
        }
    }
}

/// Every sink reached from a new one by calls holds no more events than its
/// capacity, and while it is disabled it holds none and is not dirty.
pub proof fn lemma_sink_invariants(capacity: nat, calls: Seq<SinkCall>)
    ensures
        sink_run(initial_sink(capacity), calls).history.len() <= capacity,
        !sink_run(initial_sink(capacity), calls).enabled ==> {
            &&& sink_run(initial_sink(capacity), calls).history.len() == 0
            &&& !sink_run(initial_sink(capacity), calls).dirty
        },
        sink_run(initial_sink(capacity), calls).capacity == capacity,
    decreases calls.len(),
{
    if calls.len() > 0 {
        lemma_sink_invariants(capacity, calls.drop_last());
    }
}

/// The history, capacity and clock of a sink, which only its methods change.
#[derive(Debug)]
pub struct SinkStorage {
    history: VecDeque<RotatorDebugEvent>,
    capacity: usize,
    started: Instant,
}

/// Ring-buffer event collector owned by the rotator.
#[derive(Debug)]
pub struct RotatorDebugSink {
    pub enabled: bool,
    pub storage: SinkStorage,
    /// Whether new events have been pushed since the last `drain_pending` call.
    pub dirty: bool,
}

impl RotatorDebugSink {
    /// The events held, oldest first.
    pub closed spec fn history(&self) -> Seq<RotatorDebugEvent> {
        self.storage.history@
    }

    /// The number of events the sink keeps before it drops the oldest.
    pub closed spec fn capacity(&self) -> nat {
        self.storage.capacity as nat
    }

    /// What the sink holds, as plain values.
    pub open spec fn state(&self) -> SinkState {
        SinkState {
            enabled: self.enabled,
            dirty: self.dirty,
            history: self.history(),
            capacity: self.capacity(),
        }
    }

    /// The history never holds more than `capacity` events.
    pub open spec fn bounded(&self) -> bool {
        self.history().len() <= self.capacity()
    }

    pub fn new(capacity: usize) -> (s: Self)
        ensures
            s.state() == initial_sink(capacity as nat),
            !s.enabled,
            !s.dirty,
            s.history() == Seq::<RotatorDebugEvent>::empty(),
            s.capacity() == capacity,
            s.bounded(),
    {
        RotatorDebugSink {
            enabled: false,
            storage: SinkStorage {
                history: VecDeque::with_capacity(capacity),
                capacity,
                started: instant_now(),
            },
            dirty: false,
        }
    }

    /// Milliseconds since the sink was created. It reads the clock, so no
    /// value is promised; the narrowing step is `elapsed_ms_from_millis`.
    pub fn now_ms(&self) -> ElapsedMs {
        let elapsed = instant_elapsed(&self.storage.started);
        elapsed_ms_from_millis(duration_as_millis(&elapsed))
    }

    /// Turns collection on or off. Turning it off forgets the history and
    /// clears the dirty flag; turning it on keeps both as they were.
    pub fn set_enabled(&mut self, on: bool)
        ensures
            final(self).state() == sink_step(old(self).state(), SinkCall::SetEnabled(on)),
            final(self).enabled == on,
            final(self).capacity() == old(self).capacity(),
            on ==> final(self).history() == old(self).history(),
            on ==> final(self).dirty == old(self).dirty,
            !on ==> final(self).history() == Seq::<RotatorDebugEvent>::empty(),
            !on ==> !final(self).dirty,
            old(self).bounded() ==> final(self).bounded(),
    {
        self.enabled = on;
        if !on {
            self.dirty = false;
            self.storage.history.clear();
        }
    }

    /// Emits an event. No-op when disabled. When enabled, the event is
    /// recorded, the oldest events giving way so that at most `capacity`
    /// remain, and the sink becomes dirty.
    pub fn emit(&mut self, ev: RotatorDebugEvent)
        ensures
            final(self).state() == sink_step(old(self).state(), SinkCall::Emit(ev)),
            final(self).enabled == old(self).enabled,
            final(self).capacity() == old(self).capacity(),
            !old(self).enabled ==> final(self).history() == old(self).history(),
            !old(self).enabled ==> final(self).dirty == old(self).dirty,
            old(self).enabled ==> final(self).history() == record(
                old(self).history(),
                old(self).capacity(),
                ev,
            ),
            old(self).enabled ==> final(self).dirty,
            old(self).enabled ==> final(self).bounded(),
            old(self).bounded() ==> final(self).bounded(),
    {
        if !self.enabled {
            return;
        }
        self.dirty = true;
        if self.storage.capacity == 0 {
            self.storage.history.clear();
            assert(self.storage.history@ =~= latest(old(self).history().push(ev), 0));
            return;
        }
        let ghost before = self.storage.history@;
        let cap = self.storage.capacity;
        while self.storage.history.len() >= cap
            invariant
                cap == self.storage.capacity,
                cap > 0,
                self.enabled == old(self).enabled,
                self.dirty,
                before == old(self).history(),
                self.storage.capacity == old(self).capacity(),
                self.storage.history@.len() <= before.len(),
                self.storage.history@ == before.skip(before.len() - self.storage.history@.len()),
                self.storage.history@.len() == before.len() || self.storage.history@.len() >= cap - 1,
            decreases self.storage.history@.len(),
        {
            self.storage.history.pop_front();
            assert(self.storage.history@ =~= before.skip(before.len() - self.storage.history@.len()));
        }
        let ghost kept = self.storage.history@;
        self.storage.history.push_back(ev);
        assert(self.storage.history@ =~= latest(before.push(ev), cap as nat)) by {
            if before.len() + 1 > cap {
                assert(kept.len() == cap - 1);
                assert(kept.push(ev) =~= before.push(ev).skip(before.len() + 1 - cap));
            } else {
                assert(kept =~= before);
            }
        }
    }

    /// Returns all pending events and clears the dirty flag.
    /// The history itself is not cleared, so a later snapshot can still be built.
    pub fn drain_pending(&mut self) -> (out: Vec<RotatorDebugEvent>)
        ensures
            final(self).state() == sink_step(old(self).state(), SinkCall::Drain),
            out.len() == old(self).history().len(),
            forall|i: int| 0 <= i < out.len() ==> #[trigger] out@[i].same(&old(self).history()[i]),
            final(self).history() == old(self).history(),
            final(self).enabled == old(self).enabled,
            final(self).capacity() == old(self).capacity(),
            !final(self).dirty,
            old(self).bounded() ==> final(self).bounded(),
    {
        self.dirty = false;
        let n = self.storage.history.len();
        let mut out: Vec<RotatorDebugEvent> = Vec::new();
        let mut i: usize = 0;
        while i < n
            invariant
                n == self.storage.history@.len(),
                i <= n,
                out.len() == i,
                forall|j: int| 0 <= j < i ==> #[trigger] out@[j].same(&self.storage.history@[j]),
            decreases n - i,
        {
            out.push(self.storage.history[i].clone());
            i = i + 1;
        }
        out
    }
}

impl Default for RotatorDebugSink {
    fn default() -> (s: Self)
        ensures
            s.state() == initial_sink(512),
            !s.enabled,
            !s.dirty,
            s.history() == Seq::<RotatorDebugEvent>::empty(),
            s.capacity() == 512,
    {
        Self::new(512)
    }
}

} // verus!
