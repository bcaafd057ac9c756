//! Rotator debug event recording and the state a debug panel rebuilds from it,
//! plus the lookup table that localises user-visible text.

mod clock;
mod cooldown;
mod events;
mod i18n;
mod i18n_laws;
mod panel;
mod panel_laws;
mod sink;
mod text;

pub use clock::elapsed_ms_from_millis;
pub use cooldown::{
    cooldown_display, cooldown_total, cooldown_total_ms, cooldown_view, lemma_cooldown_display_cases,
    lemma_erda_shower_period, lemma_every_millis_decimal, lemma_every_millis_period, CooldownDisplay,
    DEFAULT_EVERY_MILLIS, ERDA_SHOWER_COOLDOWN_MS,
};
pub use events::{
    ActionView, BlockReason, CondOutcome, ElapsedMs, PriorityActionView, QueueKind,
    RotatorDebugEvent, RotatorSnapshot,
};
pub use i18n::{lookup, tr, translated, TRANSLATIONS, TRANSLATION_COUNT};
pub use i18n_laws::{
    entry_shape, has_cjk, is_cjk, lemma_lookup_found, lemma_lookup_missing, lemma_table_shape,
    lemma_tr_idempotent,
};
pub use panel::{
    apply, apply_all, can_apply, can_receive, first_with_id, initial_view, is_first_with_id, label_differs,
    lemma_apply_frame, lemma_apply_ignores_timeline, lemma_paused_batch, lemma_priority_round_trip, lemma_side_round_trip, lemma_snapshot_overrides,
    lemma_timeline_bounded, push_capped, receive, receive_all, update_cooldown, without_label,
    PanelView, RotatorDebugState, TimelineEntry, MAX_TIMELINE,
};
pub use panel_laws::{
    lemma_blocked_effects, lemma_condition_sets_cooldown, lemma_condition_unknown_action,
    lemma_dispatch_effects, lemma_enqueue_effects, lemma_normal_advance_moves, lemma_receive_is_apply,
    lemma_refused_only_on_side_overflow, logged,
};
pub use sink::{
    clears, emitted_since_clear, initial_sink, latest, lemma_dirty_iff_emitted,
    lemma_record_keeps_latest, lemma_sink_invariants, record, record_all, sink_run, sink_step,
    RotatorDebugSink, SinkCall, SinkState, SinkStorage,
};
pub use text::{
    all_digits, chars_equal, chars_of, decimal, digit_char, digit_value, lemma_decimal_value,
    lemma_parse_decimal, digits_value, is_digit, matches_at, parse_i64,
    parse_i64_chars, starts_with, trim_end_char, trim_end_char_chars, trim_start_matches,
    trim_start_matches_chars,
};
