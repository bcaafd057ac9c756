use rotator_debug::{tr, TRANSLATIONS, TRANSLATION_COUNT};

#[test]
fn known_text_is_translated() {
    assert_eq!(tr("Actions"), "动作");
    assert_eq!(tr("Add"), "添加");
    assert_eq!(tr("(no priority actions)"), "(无优先动作)");
    assert_eq!(tr("ㄨ - No position"), "ㄨ - 无位置");
}

#[test]
fn proper_nouns_stay_english() {
    assert_eq!(tr("2x EXP Coupon"), "2x EXP Coupon");
    assert_eq!(tr("Wealth Acquisition Potion"), "Wealth Acquisition Potion");
    assert_eq!(tr("(empty)"), "(empty)");
}

#[test]
fn unknown_text_comes_back_unchanged() {
    assert_eq!(tr("Not in the table"), "Not in the table");
    assert_eq!(tr(""), "");
    assert_eq!(tr("actions"), "actions");
    assert_eq!(tr("Actions "), "Actions ");
}

#[test]
fn long_entries_are_translated() {
    assert_eq!(
        tr("This key must be set to use familiars swapping feature."),
        "必须使用此按键才能使用 familiars 交换功能。"
    );
}

#[test]
fn every_entry_translates_to_its_value() {
    assert_eq!(TRANSLATIONS.len(), TRANSLATION_COUNT);
    for (key, value) in TRANSLATIONS.iter() {
        assert_eq!(tr(key), *value);
    }
}

#[test]
fn translating_twice_changes_nothing() {
    for (key, _) in TRANSLATIONS.iter() {
        assert_eq!(tr(tr(key)), tr(key));
    }
    assert_eq!(tr(tr("Not in the table")), "Not in the table");
}
