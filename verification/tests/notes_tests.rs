use ygg_admin::notes::{
    clear_submitted, draft_storage_key, editor_slot, flush_action, may_leave, note_state_label,
    parse_tags, public_state_text, revision_label, revision_label_text, sort_ids, tags_text,
    toggle_notebook, FlushAction,
};

#[test]
fn quick_save_clears_only_the_submitted_snapshot() {
    let mut current = "first".to_string();
    assert!(clear_submitted(&mut current, "first"));
    assert!(current.is_empty());
    current = "first plus a new thought".to_string();
    assert!(!clear_submitted(&mut current, "first"));
    assert_eq!(current, "first plus a new thought");
    current.clear();
    assert!(!clear_submitted(&mut current, "first"));
}

#[test]
fn tags_split_on_both_commas_and_drop_blanks() {
    assert_eq!(parse_tags(" rust, verus ，, 笔记 "), vec!["rust".to_string(), "verus".to_string(), "笔记".to_string()]);
    assert!(parse_tags("  ").is_empty());
}

#[test]
fn tags_join_with_comma_space() {
    assert_eq!(tags_text(&vec!["a".to_string(), "b".to_string()]), "a, b");
    assert_eq!(tags_text(&vec![]), "");
}

#[test]
fn notebooks_stay_ascending_and_unique() {
    assert_eq!(sort_ids(vec![3, 1, 2]), vec![1, 2, 3]);
    assert_eq!(toggle_notebook(vec![1, 4], 2, true), vec![1, 2, 4]);
    assert_eq!(toggle_notebook(vec![1, 2, 4], 2, true), vec![1, 2, 4]);
    assert_eq!(toggle_notebook(vec![1, 2, 4], 2, false), vec![1, 4]);
}

#[test]
fn recovery_slot_and_key() {
    assert_eq!(editor_slot(Some(12)), "12");
    assert_eq!(editor_slot(None), "new");
    assert_eq!(draft_storage_key(Some(7), "new"), "ygg.note-draft.7.new");
    assert_eq!(draft_storage_key(None, "3"), "ygg.note-draft.0.3");
}

#[test]
fn recovery_copy_follows_the_editor() {
    assert_eq!(flush_action(true, true), FlushAction::Keep);
    assert_eq!(flush_action(false, true), FlushAction::Store);
    assert_eq!(flush_action(false, false), FlushAction::Remove);
    assert!(may_leave(false, false));
    assert!(!may_leave(true, false));
    assert!(may_leave(true, true));
}

#[test]
fn note_state_labels() {
    assert_eq!(note_state_label(false, true, true), "已公开 · 已收录知识库");
    assert_eq!(note_state_label(true, true, false), "回收站");
    assert_eq!(note_state_label(false, false, false), "私密");
}

#[test]
fn revision_and_public_texts() {
    assert_eq!(revision_label_text(3, "05-01 12:30"), "v3 · 05-01 12:30 · 恢复");
    assert_eq!(revision_label(2, 0), Some("v2 · 01-01 00:00 · 恢复".to_string()));
    assert_eq!(public_state_text(Some(4)), "已公开 v4，草稿修改不会自动发布。");
    assert_eq!(public_state_text(None), "仅自己可见。");
}
