use pest_playground::files::{plan_save, plan_update, SaveAction, UpdateAction};

#[test]
fn restoring_the_original_marks_the_buffer_clean() {
    let original = Some("a = { \"x\" }".to_string());
    let content = "a = { \"x\" }".to_string();
    assert_eq!(plan_update(&original, &content, false, true), UpdateAction::MarkClean);
    assert_eq!(plan_update(&original, &content, true, false), UpdateAction::MarkClean);
}

#[test]
fn edits_are_stashed_while_auto_save_is_off() {
    let original = Some("old".to_string());
    let content = "new".to_string();
    assert_eq!(plan_update(&original, &content, false, true), UpdateAction::Stash);
    assert_eq!(plan_update(&None, &content, false, false), UpdateAction::Stash);
}

#[test]
fn edits_persist_only_with_auto_save_and_a_path() {
    let original = Some("old".to_string());
    let content = "new".to_string();
    assert_eq!(plan_update(&original, &content, true, true), UpdateAction::Persist);
    assert_eq!(plan_update(&original, &content, true, false), UpdateAction::Ignore);
}

#[test]
fn saving_needs_a_path_and_something_pending() {
    assert_eq!(plan_save(false, true), SaveAction::NeedsPath);
    assert_eq!(plan_save(false, false), SaveAction::NeedsPath);
    assert_eq!(plan_save(true, false), SaveAction::Nothing);
    assert_eq!(plan_save(true, true), SaveAction::Persist);
}
