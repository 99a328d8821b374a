use ygg_admin::notes::{
    autosave_due, autosave_fires, blocked_message, editor_buttons, editor_dirty, merge_after_save,
    move_down, move_up, persist_start, persist_status, quick_submit_allowed, recovery_offer,
    restore_local, restore_revision, NoteAction, NoteDraft, NoteFilter, NoteKind, Notebook, NotebookForm,
    PersistStart, SavedNote,
};

fn draft(title: &str, body: &str) -> NoteDraft {
    let mut d = NoteDraft::empty(NoteKind::Topic);
    d.title = title.to_string();
    d.content_md = body.to_string();
    d
}

fn saved(d: NoteDraft) -> SavedNote {
    SavedNote { id: 4, version: 2, draft: d, published_version: None, knowledge_version: None, deleted: false }
}

#[test]
fn dirtiness_of_the_editor() {
    assert!(!editor_dirty(&None, &draft("", "")));
    assert!(editor_dirty(&None, &draft("t", "")));
    let s = saved(draft("t", "b"));
    assert!(!editor_dirty(&Some(s), &draft("t", "b")));
    assert!(editor_dirty(&Some(saved(draft("t", "b"))), &draft("t", "b2")));
}

#[test]
fn saving_starts() {
    assert_eq!(persist_start(true, false, true, true), PersistStart::Ignored);
    assert_eq!(persist_start(false, true, true, true), PersistStart::Blocked);
    assert_eq!(persist_start(false, false, false, true), PersistStart::Saving { must_save: false });
    assert_eq!(persist_start(false, false, false, false), PersistStart::Saving { must_save: true });
    assert_eq!(blocked_message(), "请先等待图片上传完成，或移除失败的图片");
    assert_eq!(persist_status(Some(NoteAction::Publish), true), "公开版本已更新");
    assert_eq!(persist_status(None, true), "草稿已保存");
    assert_eq!(persist_status(Some(NoteAction::Trash), false), "保存未完成");
}

#[test]
fn merging_a_save_keeps_newer_typing() {
    let snapshot = draft("t", "b");
    let mut server_copy = draft("t", "b");
    server_copy.id = Some(4);
    server_copy.expected_version = Some(2);
    let note = saved(server_copy);
    let merged = merge_after_save(draft("t", "b"), &snapshot, &note);
    assert_eq!(merged.id, Some(4));
    assert_eq!(merged.content_md, "b");
    let merged = merge_after_save(draft("t", "b plus"), &snapshot, &note);
    assert_eq!(merged.content_md, "b plus");
    assert_eq!(merged.id, Some(4));
    assert_eq!(merged.expected_version, Some(2));
}

#[test]
fn autosave_rules() {
    assert!(autosave_due(false, false, false, false, true));
    assert!(!autosave_due(false, false, false, true, true));
    assert!(autosave_fires(true, false, false, false, false, true));
    assert!(!autosave_fires(false, false, false, false, false, true));
}

#[test]
fn restoring_copies() {
    let r = restore_local(draft("local", "x"), &Some(saved(draft("t", "b"))));
    assert_eq!(r.title, "local");
    assert_eq!(r.id, Some(4));
    assert_eq!(r.expected_version, Some(2));
    let r = restore_revision(draft("old", "y"), Some(9));
    assert_eq!(r.expected_version, Some(9));
    assert_eq!(r.title, "old");
}

#[test]
fn recovery_is_offered_only_for_different_text() {
    assert!(recovery_offer(None, &draft("t", "b")).is_none());
    assert!(recovery_offer(Some(draft("t", "b")), &draft("t", "b")).is_none());
    let offered = recovery_offer(Some(draft("t", "b2")), &draft("t", "b")).unwrap();
    assert_eq!(offered.content_md, "b2");
}

#[test]
fn editor_button_states() {
    let b = editor_buttons(false, &None, false);
    assert!(b.save && !b.preview && b.publish && !b.publish_updates);
    let mut s = saved(draft("t", "b"));
    s.published_version = Some(1);
    let b = editor_buttons(false, &Some(s), false);
    assert!(b.preview && b.publish_updates);
    let mut t = saved(draft("t", "b"));
    t.deleted = true;
    let b = editor_buttons(false, &Some(t), false);
    assert!(!b.save && !b.publish);
    assert!(quick_submit_allowed(false, false, " hi "));
    assert!(!quick_submit_allowed(false, false, "  "));
    assert!(!quick_submit_allowed(true, false, "hi"));
}

#[test]
fn list_filter_tabs() {
    let mut f = NoteFilter { kind: None, trash: false, query: String::new(), published: None, knowledge: None, page: 3 };
    assert_eq!(f.active_tab(), "all");
    f.select_tab("moment");
    assert_eq!(f.active_tab(), "moment");
    assert_eq!(f.page, 1);
    f.select_tab("trash");
    assert_eq!(f.active_tab(), "trash");
    f.apply_query("rust".to_string());
    f.page = 2;
    f.query_typed("rus");
    assert_eq!(f.query, "rust");
    assert_eq!(f.page, 2);
    f.query_typed("");
    assert_eq!(f.query, "");
    assert_eq!(f.page, 1);
}

#[test]
fn reading_order_moves() {
    let mut rows = vec![1, 2, 3];
    move_up(&mut rows, 2);
    assert_eq!(rows, vec![1, 3, 2]);
    move_down(&mut rows, 0);
    assert_eq!(rows, vec![3, 1, 2]);
}

#[test]
fn notebook_form() {
    let mut f = NotebookForm::open(&None);
    assert!(!f.is_public && f.public_editable());
    f.title = "读书".to_string();
    let input = f.submit().unwrap();
    assert_eq!(input.id, None);
    assert_eq!(input.title, "读书");
    assert!(f.submit().is_none());
    f.answered();
    assert!(!f.busy);
    let book = Notebook { id: 3, title: "旧".to_string(), description: "d".to_string(), is_public: true, archived: true };
    let g = NotebookForm::open(&Some(book));
    assert_eq!(g.id, Some(3));
    assert!(!g.public_editable());
}
