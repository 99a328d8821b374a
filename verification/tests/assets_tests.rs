use ygg_admin::assets::{
    assets_subtitle, batch_delete_message, AssetQuery, card_selectable, delete_target, card_enter_delay, contains_id, debounce_commits,
    delete_needs_reload, filter_from_key, group_members, image_alt, op_failure, page_orphan_ids,
    placeholder_url, popover_align, purge_button_text, purge_message, ref_group, ref_target,
    sort_from_key, thumb_url, upload_path, view_key, AssetCard, AssetFilter, AssetOp, AssetRefKind,
    AssetSelection, AssetSort, OpBanner, PopAlign, RefGroup, RefTarget,
};

fn ids(v: &[&str]) -> Vec<String> {
    v.iter().map(|s| s.to_string()).collect()
}

fn sorted(mut v: Vec<String>) -> Vec<String> {
    v.sort();
    v
}

#[test]
fn query_mapping() {
    assert_eq!(filter_from_key("used"), AssetFilter::Used);
    assert_eq!(filter_from_key("orphan"), AssetFilter::Orphan);
    assert_eq!(filter_from_key("all"), AssetFilter::All);
    assert_eq!(filter_from_key("bogus"), AssetFilter::All);
    assert_eq!(sort_from_key("size"), AssetSort::SizeDesc);
    assert_eq!(sort_from_key("created"), AssetSort::CreatedDesc);
    assert_eq!(view_key("all", "cat", "created", 2), "all|cat|created|2");
}

#[test]
fn subtitle_counts() {
    assert_eq!(assets_subtitle(3, 4), "管理文章编辑器上传的图片。共 7 张，引用中 3 张，未引用 4 张。");
}

#[test]
fn debounce_commits_only_unchanged_new_queries() {
    assert!(debounce_commits("cat", "cat", ""));
    assert!(!debounce_commits("cats", "cat", ""));
    assert!(!debounce_commits("cat", "cat", "cat"));
}

#[test]
fn only_unreferenced_cards_are_selectable() {
    let cards = vec![
        AssetCard { id: "a".to_string(), ref_count: 0 },
        AssetCard { id: "b".to_string(), ref_count: 2 },
        AssetCard { id: "c".to_string(), ref_count: 0 },
    ];
    assert_eq!(page_orphan_ids(&cards), ids(&["a", "c"]));
    assert!(contains_id(&ids(&["a", "c"]), "c"));
    assert!(!contains_id(&ids(&["a", "c"]), "b"));
}

#[test]
fn toggling_a_card() {
    let mut s = AssetSelection::new();
    s.toggle_one("a");
    s.toggle_one("b");
    assert_eq!(sorted(s.ids.clone()), ids(&["a", "b"]));
    assert!(!s.closing);
    s.toggle_one("a");
    assert_eq!(s.ids, ids(&["b"]));
    // Unticking the last one starts the exit; the ids stay until it ends.
    s.toggle_one("b");
    assert!(s.closing);
    assert_eq!(s.ids, ids(&["b"]));
    s.exit_elapsed();
    assert!(s.ids.is_empty());
    assert!(!s.closing);
}

#[test]
fn toggling_a_card_twice_restores_the_selection() {
    let mut s = AssetSelection::new();
    s.toggle_one("a");
    s.toggle_one("b");
    let before = sorted(s.ids.clone());
    s.toggle_one("c");
    s.toggle_one("c");
    assert_eq!(sorted(s.ids.clone()), before);
}

#[test]
fn selecting_and_unselecting_a_page() {
    let mut s = AssetSelection::new();
    s.toggle_one("z");
    let page = ids(&["a", "b"]);
    assert!(!s.all_page_selected(&page));
    s.toggle_page(&page);
    assert_eq!(sorted(s.ids.clone()), ids(&["a", "b", "z"]));
    assert!(s.all_page_selected(&page));
    s.toggle_page(&page);
    assert_eq!(s.ids, ids(&["z"]));
}

#[test]
fn clearing_and_batch_delete() {
    let mut s = AssetSelection::new();
    s.toggle_one("a");
    s.confirm = true;
    s.clear();
    assert!(!s.confirm);
    assert!(s.closing);
    let mut t = AssetSelection::new();
    t.toggle_one("a");
    assert!(!t.batch_deleted(0));
    assert!(!t.closing);
    assert!(t.batch_deleted(1));
    assert!(t.closing);
}

#[test]
fn banner_exit() {
    let mut b = OpBanner::new();
    b.show("已删除".to_string());
    b.dismiss();
    b.show("新消息".to_string());
    b.exit_elapsed();
    assert_eq!(b.message, Some("新消息".to_string()));
    b.dismiss();
    b.exit_elapsed();
    assert_eq!(b.message, None);
}

#[test]
fn feedback_texts() {
    assert_eq!(purge_message(3, "1.2 MB", 0), "已清理 3 张未引用素材，释放 1.2 MB");
    assert_eq!(purge_message(3, "1.2 MB", 1), "已清理 3 张未引用素材，释放 1.2 MB（1 个文件删除失败）");
    assert_eq!(batch_delete_message("已删除 2 张", 10, "10 B", 0), "已删除 2 张，释放 10 B");
    assert_eq!(batch_delete_message("已删除 0 张", 0, "0 B", 2), "已删除 0 张（2 项失败）");
    assert_eq!(op_failure(AssetOp::Purge, "timeout"), "清理失败：timeout");
    assert_eq!(op_failure(AssetOp::SaveAlt, "x"), "保存失败：x");
    assert_eq!(purge_button_text(true, 4, "2 MB"), "确认清理 4 张（2 MB）");
    assert_eq!(purge_button_text(false, 4, "2 MB"), "清理未引用（4 张 · 2 MB）");
    assert!(delete_needs_reload(true, false));
    assert!(delete_needs_reload(false, true));
    assert!(!delete_needs_reload(false, false));
}

#[test]
fn card_urls() {
    assert_eq!(thumb_url("2024/a.png"), "/uploads/2024/a.png?thumb=300x300");
    assert_eq!(placeholder_url("2024/a.png"), "/uploads/2024/a.png?w=20");
    assert_eq!(upload_path("2024/a.png"), "/uploads/2024/a.png");
    assert_eq!(image_alt(&Some("猫".to_string()), "a.png"), "猫");
    assert_eq!(image_alt(&None, "a.png"), "a.png");
    assert_eq!(card_enter_delay(3), 90);
    assert_eq!(card_enter_delay(50), 300);
}

#[test]
fn popover_alignment() {
    assert_eq!(popover_align(100, 1280), PopAlign::Start);
    assert_eq!(popover_align(1100, 1280), PopAlign::End);
    assert_eq!(popover_align(600, 1280), PopAlign::Center);
}

#[test]
fn reference_groups_and_targets() {
    let refs = vec![
        AssetRefKind::Comment { post_id: 2, post_slug: "b".to_string(), post_published: false },
        AssetRefKind::Post { post_id: 1, slug: "a".to_string(), published: true },
        AssetRefKind::FriendAvatar,
        AssetRefKind::UserAvatar,
    ];
    assert_eq!(ref_group(&refs[0]), RefGroup::Comments);
    assert_eq!(group_members(&refs, RefGroup::Posts), vec![1]);
    assert_eq!(group_members(&refs, RefGroup::Avatars), vec![2, 3]);
    assert!(matches!(ref_target(&refs[1]), RefTarget::NewTab(u) if u == "/post/a"));
    assert!(matches!(ref_target(&refs[0]), RefTarget::Edit(2)));
    assert!(matches!(ref_target(&refs[2]), RefTarget::Friends));
    assert!(matches!(ref_target(&refs[3]), RefTarget::Plain));
}

#[test]
fn referenced_cards_get_no_checkbox_or_delete() {
    assert!(card_selectable(0));
    assert!(!card_selectable(3));
    let used = AssetCard { id: "a".to_string(), ref_count: 2 };
    let free = AssetCard { id: "b".to_string(), ref_count: 0 };
    assert_eq!(delete_target(&used), None);
    assert_eq!(delete_target(&free), Some("b".to_string()));
    let mut s = AssetSelection::new();
    s.toggle_card(&used);
    assert!(s.ids.is_empty());
    s.toggle_card(&free);
    assert_eq!(s.ids, vec!["b".to_string()]);
    s.toggle_card(&used);
    assert_eq!(s.ids, vec!["b".to_string()]);
}

#[test]
fn filter_sort_and_search_reset_the_page() {
    let mut q = AssetQuery::new();
    assert_eq!(q.page, 1);
    q.next();
    q.next();
    assert_eq!(q.page, 3);
    q.choose_filter("orphan".to_string());
    assert_eq!(q.page, 1);
    q.jump(4);
    q.choose_sort("size".to_string());
    assert_eq!(q.page, 1);
    q.jump(5);
    q.type_query("cat".to_string());
    assert_eq!(q.page, 5);
    assert!(!q.search_elapsed("ca"));
    assert_eq!(q.page, 5);
    assert!(q.search_elapsed("cat"));
    assert_eq!(q.page, 1);
    assert_eq!(q.committed, "cat");
    assert!(!q.search_elapsed("cat"));
    q.prev();
    assert_eq!(q.page, 1);
    let r = q.request();
    assert_eq!(r.filter, AssetFilter::Orphan);
    assert_eq!(r.sort, AssetSort::SizeDesc);
    assert_eq!(r.query, "cat");
    assert_eq!(r.page, 1);
}
