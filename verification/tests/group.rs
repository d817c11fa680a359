use signal_bot::bot::group::{GroupConfigStore, GroupMode};

#[test]
fn modes_are_named_in_any_case() {
    assert_eq!(GroupMode::from_str("  Translator "), Some(GroupMode::Translate));
    assert_eq!(GroupMode::from_str("translation"), Some(GroupMode::Translate));
    assert_eq!(GroupMode::from_str("TRANSLATE"), Some(GroupMode::Translate));
    assert_eq!(GroupMode::from_str("Chat"), Some(GroupMode::Assistant));
    assert_eq!(GroupMode::from_str("assistant"), Some(GroupMode::Assistant));
    assert_eq!(GroupMode::from_str("default\n"), Some(GroupMode::Assistant));
    assert_eq!(GroupMode::from_str("poet"), None);
    assert_eq!(GroupMode::from_str(""), None);
}

#[test]
fn only_the_translator_answers_everything() {
    assert!(!GroupMode::Assistant.responds_to_all());
    assert!(GroupMode::Translate.responds_to_all());
    assert_eq!(GroupMode::Assistant.system_prompt_suffix(), "");
    assert!(GroupMode::Translate
        .system_prompt_suffix()
        .starts_with("\n\n## Group Translator Mode\nYou are in translator mode for this group chat. "));
    assert_eq!(GroupMode::Assistant.display_name(), "Assistant");
    assert_eq!(GroupMode::Translate.display_name(), "Translator");
    assert_eq!(GroupMode::default(), GroupMode::Assistant);
}

#[test]
fn each_group_has_its_own_mode() {
    let mut store = GroupConfigStore::new();
    assert_eq!(store.get_mode("a"), GroupMode::Assistant);
    store.set_mode("a", GroupMode::Translate);
    assert_eq!(store.get_mode("a"), GroupMode::Translate);
    assert_eq!(store.get_mode("b"), GroupMode::Assistant);
    store.set_mode("a", GroupMode::Assistant);
    assert_eq!(store.get_mode("a"), GroupMode::Assistant);
}
