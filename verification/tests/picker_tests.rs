use ygg_admin::picker::{PickerAsset, PickerBody, PickerPage, PickerState};

fn asset(path: &str) -> PickerAsset {
    PickerAsset { id: path.to_string(), path: path.to_string(), filename: path.to_string(), alt: None }
}

#[test]
fn only_the_latest_answer_lands() {
    let mut p = PickerState::new();
    p.open();
    let first = p.begin_load().unwrap();
    assert!(p.load_started(first));
    p.type_query("cat".to_string());
    let late = PickerPage::Loaded { assets: vec![asset("old.png")], total: 1 };
    p.load_finished(first, 1, late);
    assert!(p.assets.is_empty());
    assert!(p.loading);
    let second = p.begin_load().unwrap();
    assert!(p.load_started(second));
    p.load_finished(second, 1, PickerPage::Loaded { assets: vec![asset("new.png")], total: 1 });
    assert_eq!(p.assets.len(), 1);
    assert!(!p.loading);
}

#[test]
fn past_the_end_moves_to_the_last_page() {
    let mut p = PickerState::new();
    p.open();
    let id = p.begin_load().unwrap();
    p.load_started(id);
    p.load_finished(id, 5, PickerPage::Loaded { assets: vec![], total: 61 });
    assert_eq!(p.page, 2);
    assert!(p.loading);
}

#[test]
fn failures_show_and_end_loading() {
    let mut p = PickerState::new();
    p.open();
    let id = p.begin_load().unwrap();
    p.load_started(id);
    p.load_finished(id, 1, PickerPage::Failed("offline".to_string()));
    assert_eq!(p.error, Some("offline".to_string()));
    assert_eq!(p.body(), PickerBody::Error);
}

#[test]
fn closing_drops_pending_answers_and_resets_the_page() {
    let mut p = PickerState::new();
    assert_eq!(p.begin_load(), None);
    p.open();
    p.page = 3;
    let id = p.begin_load().unwrap();
    p.close();
    assert!(p.renders());
    assert_eq!(p.page, 1);
    p.load_finished(id, 3, PickerPage::Loaded { assets: vec![asset("x.png")], total: 1 });
    assert!(p.assets.is_empty());
    p.exit_elapsed();
    assert!(!p.renders());
}

#[test]
fn debounce_commits_and_resets_the_page() {
    let mut p = PickerState::new();
    p.open();
    p.page = 4;
    p.type_query("dog".to_string());
    p.debounce_elapsed("do");
    assert_eq!(p.page, 4);
    p.debounce_elapsed("dog");
    assert_eq!(p.committed, "dog");
    assert_eq!(p.page, 1);
}

#[test]
fn picking_and_uploading() {
    let mut p = PickerState::new();
    p.open();
    assert!(p.upload_started());
    assert!(!p.upload_started());
    p.upload_finished(Ok("/uploads/new.png".to_string()));
    assert!(!p.uploading);
    assert_eq!(p.pick_uploaded(), Some("/uploads/new.png".to_string()));
    assert!(!p.visible);
    p.open();
    assert_eq!(p.uploaded_url, None);
    let id = p.begin_load().unwrap();
    p.load_started(id);
    p.load_finished(id, 1, PickerPage::Loaded { assets: vec![asset("2024/a.png")], total: 1 });
    assert_eq!(p.pick_tile(0), "/uploads/2024/a.png");
}

#[test]
fn body_and_paging() {
    let mut p = PickerState::new();
    p.open();
    p.loading = true;
    assert_eq!(p.body(), PickerBody::Loading);
    p.loading = false;
    assert_eq!(p.body(), PickerBody::Empty);
    p.uploading = true;
    assert_eq!(p.body(), PickerBody::Grid);
    p.loading = true;
    p.next();
    assert_eq!(p.page, 1);
    p.loading = false;
    p.next();
    p.prev();
    p.prev();
    assert_eq!(p.page, 1);
    p.jump(-4);
    assert_eq!(p.page, 1);
    p.jump(3);
    assert_eq!(p.page, 3);
}
