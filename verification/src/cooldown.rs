//! What the cooldown column of the debug panel shows for a priority action.

use vstd::prelude::*;

use crate::text::{
    chars_equal, chars_of, decimal, is_digit, lemma_parse_decimal, matches_at, parse_i64, parse_i64_chars, starts_with, trim_end_char,
    trim_end_char_chars, trim_start_matches, trim_start_matches_chars,
};

verus! {

/// The cooldown assumed for an `EveryMillis(..)` condition whose period does not parse.
pub const DEFAULT_EVERY_MILLIS: i64 = 30_000;

/// The cooldown of the `ErdaShowerOffCooldown` condition.
pub const ERDA_SHOWER_COOLDOWN_MS: i64 = 20_000;

/// How the cooldown of a priority action is shown.
#[derive(Debug, Clone, Copy, PartialEq, Eq, Structural)]
pub enum CooldownDisplay {
    /// Only the condition kind, as text.
    Label,
    /// The action can be queued now.
    Ready,
    /// A progress bar: `remaining_ms` of a `total_ms` cooldown are left.
    Counting { total_ms: i64, remaining_ms: i64 },
}

/// The full cooldown of a condition kind: the period of `EveryMillis(n)`
/// (the default when it does not parse), the Erda Shower cooldown, or none
/// for any other kind.
pub open spec fn cooldown_total(kind: Seq<char>) -> Option<i64> {
    if starts_with(kind, "EveryMillis"@) {
        let inner = trim_end_char(trim_start_matches(kind, "EveryMillis("@), ')');
        match parse_i64(inner) {
            Some(n) => Some(n),
            None => Some(DEFAULT_EVERY_MILLIS),
        }
    } else if kind == "ErdaShowerOffCooldown"@ {
        Some(ERDA_SHOWER_COOLDOWN_MS)
    } else {
        None
    }
}

/// What is shown for an action with `remaining` milliseconds of cooldown
/// under a condition of kind `kind`.
pub open spec fn cooldown_view(remaining: Option<i64>, kind: Seq<char>) -> CooldownDisplay {
    match remaining {
        None => CooldownDisplay::Label,
        Some(r) => match cooldown_total(kind) {
            None => CooldownDisplay::Label,
            Some(total) => if r <= 0 {
                CooldownDisplay::Ready
            } else {
                CooldownDisplay::Counting { total_ms: total, remaining_ms: r }
            },
        },
    }
}

/// The cooldown column shows the condition kind as text when there is no
/// remaining time or the kind has no known cooldown; otherwise it shows
/// "ready" exactly when nothing remains, and a bar with the kind's full
/// cooldown and the remaining time whenever some time remains.
pub proof fn lemma_cooldown_display_cases(remaining: Option<i64>, kind: Seq<char>)
    ensures
        remaining is None ==> cooldown_view(remaining, kind) == CooldownDisplay::Label,
        cooldown_total(kind) is None ==> cooldown_view(remaining, kind) == CooldownDisplay::Label,
        (cooldown_view(remaining, kind) == CooldownDisplay::Ready) <==> (remaining matches Some(r) && r <= 0
            && cooldown_total(kind) is Some),
        forall|r: i64, total: i64|
            remaining == Some(r) && cooldown_total(kind) == Some(total) && r > 0
                ==> cooldown_view(remaining, kind) == (CooldownDisplay::Counting { total_ms: total, remaining_ms: r }),
{
}

/// What `i64::from_str` accepts starts with a digit or a sign and ends with a
/// digit.
proof fn lemma_parsed_shape(s: Seq<char>)
    requires
        parse_i64(s) is Some,
    ensures
        s.len() > 0,
        s[0] == '+' || s[0] == '-' || is_digit(s[0]),
        is_digit(s.last()),
{
    let signed = s.len() > 0 && (s[0] == '-' || s[0] == '+');
    let digits = if signed { s.drop_first() } else { s };
    assert(is_digit(digits[0]));
    assert(is_digit(digits[digits.len() - 1]));
    if signed {
        assert(s.last() == digits[digits.len() - 1]);
    } else {
        assert(s[0] == digits[0]);
    }
}

/// A condition kind `EveryMillis(n)`, where `n` is any text that
/// `i64::from_str` reads as a number, has that number as its cooldown.
pub proof fn lemma_every_millis_period(n: Seq<char>)
    requires
        parse_i64(n) is Some,
    ensures
        cooldown_total("EveryMillis("@ + n + ")"@) == parse_i64(n),
{
    reveal_strlit("EveryMillis(");
    reveal_strlit("EveryMillis");
    reveal_strlit(")");
    lemma_parsed_shape(n);
    let open = "EveryMillis("@;
    let kind = open + n + ")"@;
    let rest = n + ")"@;
    assert(kind.take(11) =~= "EveryMillis"@);
    assert(kind.take(12) =~= open);
    assert(kind.skip(12) =~= rest);
    assert(rest[0] == n[0]);
    assert(!starts_with(rest, open)) by {
        if starts_with(rest, open) {
            assert(rest.take(12)[0] == open[0]);
        }
    }
    assert(open.len() == 12);
    assert(starts_with(kind, open));
    assert(trim_start_matches(rest, open) == rest);
    assert(trim_start_matches(kind, open) == trim_start_matches(kind.skip(12), open));
    assert(trim_start_matches(kind, open) == rest);
    assert(rest.drop_last() =~= n);
    assert(trim_end_char(rest, ')') == trim_end_char(n, ')'));
    assert(trim_end_char(n, ')') == n);
}

/// `EveryMillis(n)`, with `n` any `i64` written in decimal, has the cooldown `n`.
pub proof fn lemma_every_millis_decimal(n: int)
    requires
        i64::MIN <= n <= i64::MAX,
    ensures
        n >= 0 ==> cooldown_total("EveryMillis("@ + decimal(n as nat) + ")"@) == Some(n as i64),
        n < 0 ==> cooldown_total("EveryMillis("@ + (seq!['-'] + decimal((-n) as nat)) + ")"@) == Some(n as i64),
{
    lemma_parse_decimal(n);
    if n >= 0 {
        lemma_every_millis_period(decimal(n as nat));
    } else {
        lemma_every_millis_period(seq!['-'] + decimal((-n) as nat));
    }
}

/// The Erda Shower condition has its fixed cooldown.
pub proof fn lemma_erda_shower_period()
    ensures
        cooldown_total("ErdaShowerOffCooldown"@) == Some(ERDA_SHOWER_COOLDOWN_MS),
{
    reveal_strlit("ErdaShowerOffCooldown");
    reveal_strlit("EveryMillis");
    assert(!starts_with("ErdaShowerOffCooldown"@, "EveryMillis"@)) by {
        assert("ErdaShowerOffCooldown"@.take(11)[1] != "EveryMillis"@[1]);
    }
}

/// The full cooldown of a condition kind, in milliseconds, if it has one.
pub fn cooldown_total_ms(condition_kind: &str) -> (total: Option<i64>)
    ensures
        total == cooldown_total(condition_kind@),
{
    let kind = chars_of(condition_kind);
    let every = chars_of("EveryMillis");
    assert(kind@.skip(0) =~= kind@);
    if matches_at(&kind, 0, &every) {
        let open_paren = chars_of("EveryMillis(");
        let stripped = trim_start_matches_chars(&kind, &open_paren);
        let inner = trim_end_char_chars(&stripped, ')');
        match parse_i64_chars(&inner) {
            Some(n) => Some(n),
            None => Some(DEFAULT_EVERY_MILLIS),
        }
    } else if chars_equal(&kind, &chars_of("ErdaShowerOffCooldown")) {
        Some(ERDA_SHOWER_COOLDOWN_MS)
    } else {
        None
    }
}

/// Decides how the cooldown column shows an action.
pub fn cooldown_display(remaining_ms: Option<i64>, condition_kind: &str) -> (shown: CooldownDisplay)
    ensures
        shown == cooldown_view(remaining_ms, condition_kind@),
{
    match remaining_ms {
        None => CooldownDisplay::Label,
        Some(remaining) => match cooldown_total_ms(condition_kind) {
            None => CooldownDisplay::Label,
            Some(total) => {
                if remaining <= 0 {
                    CooldownDisplay::Ready
                } else {
                    CooldownDisplay::Counting { total_ms: total, remaining_ms: remaining }
                }
            },
        },
    }
}

} // verus!
