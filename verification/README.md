# rotator_debug

The debug view of a skill rotator, as a verified library.

- `src/sink.rs`: `RotatorDebugSink`, the ring buffer the rotator emits events into.
- `src/panel.rs`: `RotatorDebugState`, the state a debug panel rebuilds from those
  events (queues, cooldowns, block reason, a capped timeline, pause handling).
- `src/cooldown.rs`: how the cooldown column shows a priority action, including the
  parsing of `EveryMillis(n)` condition kinds.
- `src/i18n.rs`: `tr`, the English-to-Simplified-Chinese lookup table;
  `src/i18n_laws.rs` proves from the table's contents that `tr` is idempotent.
- `src/events.rs`, `src/text.rs`, `src/clock.rs`: the event types, character-level
  string helpers, and the clock.

`app/` holds what is not verified: serde copies of the event types, the
floating-point text of the timeline and cooldown bar, and the tokio task that
feeds a panel from the rotator's broadcast channel, with the Enable and Pause
controls.
