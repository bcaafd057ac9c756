use rotator_debug::{cooldown_display, cooldown_total_ms, CooldownDisplay};

#[test]
fn every_millis_period_is_parsed() {
    assert_eq!(cooldown_total_ms("EveryMillis(15000)"), Some(15000));
    assert_eq!(cooldown_total_ms("EveryMillis(+9)"), Some(9));
    assert_eq!(cooldown_total_ms("EveryMillis(-3)"), Some(-3));
    assert_eq!(cooldown_total_ms("EveryMillis(0)"), Some(0));
}

#[test]
fn every_millis_trims_repeated_prefix_and_parens() {
    assert_eq!(cooldown_total_ms("EveryMillis(EveryMillis(5)"), Some(5));
    assert_eq!(cooldown_total_ms("EveryMillis(7)))"), Some(7));
}

#[test]
fn every_millis_falls_back_to_default() {
    assert_eq!(cooldown_total_ms("EveryMillis(abc)"), Some(30_000));
    assert_eq!(cooldown_total_ms("EveryMillis"), Some(30_000));
    assert_eq!(cooldown_total_ms("EveryMillis()"), Some(30_000));
    assert_eq!(cooldown_total_ms("EveryMillis(1_000)"), Some(30_000));
    assert_eq!(cooldown_total_ms("EveryMillis( 10)"), Some(30_000));
    assert_eq!(cooldown_total_ms("EveryMillis(-)"), Some(30_000));
    assert_eq!(cooldown_total_ms("EveryMillisX"), Some(30_000));
}

#[test]
fn every_millis_range_limits() {
    assert_eq!(cooldown_total_ms("EveryMillis(9223372036854775807)"), Some(i64::MAX));
    assert_eq!(cooldown_total_ms("EveryMillis(9223372036854775808)"), Some(30_000));
    assert_eq!(cooldown_total_ms("EveryMillis(-9223372036854775808)"), Some(i64::MIN));
    assert_eq!(cooldown_total_ms("EveryMillis(-9223372036854775809)"), Some(30_000));
    assert_eq!(cooldown_total_ms("EveryMillis(000000000000000000000000042)"), Some(42));
    assert_eq!(cooldown_total_ms("EveryMillis(99999999999999999999999999999)"), Some(30_000));
}

#[test]
fn erda_shower_has_fixed_cooldown() {
    assert_eq!(cooldown_total_ms("ErdaShowerOffCooldown"), Some(20_000));
    assert_eq!(cooldown_total_ms("ErdaShowerOffCooldown "), None);
}

#[test]
fn other_kinds_have_no_cooldown() {
    assert_eq!(cooldown_total_ms("Linked"), None);
    assert_eq!(cooldown_total_ms(""), None);
    assert_eq!(cooldown_total_ms("everymillis(5)"), None);
}

#[test]
fn display_without_remaining_is_label() {
    assert_eq!(cooldown_display(None, "EveryMillis(1000)"), CooldownDisplay::Label);
}

#[test]
fn display_unknown_kind_is_label() {
    assert_eq!(cooldown_display(Some(500), "Linked"), CooldownDisplay::Label);
}

#[test]
fn display_ready_when_nothing_remains() {
    assert_eq!(cooldown_display(Some(0), "EveryMillis(1000)"), CooldownDisplay::Ready);
    assert_eq!(cooldown_display(Some(-20), "ErdaShowerOffCooldown"), CooldownDisplay::Ready);
}

#[test]
fn display_counting_down() {
    assert_eq!(
        cooldown_display(Some(400), "EveryMillis(1000)"),
        CooldownDisplay::Counting { total_ms: 1000, remaining_ms: 400 }
    );
    assert_eq!(
        cooldown_display(Some(5000), "ErdaShowerOffCooldown"),
        CooldownDisplay::Counting { total_ms: 20_000, remaining_ms: 5000 }
    );
}
