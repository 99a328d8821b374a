use ygg_admin::friends::{
    active_label, delete_prompt, form_shows_initial, form_title, friends_body, initial, link_row_delay,
    list_heading, list_should_load, sort_badge, submit, submit_disabled, submit_label, FriendDraft,
    FriendLink, FriendsBody, FriendsPage, SubmitDecision,
};

fn link() -> FriendLink {
    FriendLink {
        id: 9,
        name: "Rua Lab".to_string(),
        url: "https://rua.example".to_string(),
        avatar_url: None,
        description: "hi".to_string(),
        sort_order: -3,
        is_active: false,
    }
}

#[test]
fn editing_seeds_and_saving_sends_the_same_sort() {
    let mut page = FriendsPage::new();
    page.start_edit(link());
    assert_eq!(page.draft.sort, "-3");
    assert_eq!(page.draft.avatar, "");
    match page.click_submit() {
        SubmitDecision::Update { id, payload, active } => {
            assert_eq!(id, 9);
            assert!(!active);
            assert_eq!(payload.sort, -3);
            assert_eq!(payload.avatar, None);
            assert_eq!(payload.name, "Rua Lab");
        }
        _ => panic!("expected an update"),
    }
    assert!(page.busy);
}

#[test]
fn creating_trims_and_validates() {
    let mut d = FriendDraft::empty();
    d.name = "  Site ".to_string();
    d.url = " https://s.example ".to_string();
    d.avatar = "  ".to_string();
    d.sort = " 12 ".to_string();
    match submit(&d, &None, false) {
        SubmitDecision::Create(p) => {
            assert_eq!(p.name, "Site");
            assert_eq!(p.url, "https://s.example");
            assert_eq!(p.avatar, None);
            assert_eq!(p.sort, 12);
        }
        _ => panic!("expected a create"),
    }
    d.sort = "1.5".to_string();
    assert!(matches!(submit(&d, &None, false), SubmitDecision::BadSort));
    assert!(matches!(submit(&d, &None, true), SubmitDecision::Ignore));
    d.url = "   ".to_string();
    assert!(matches!(submit(&d, &None, false), SubmitDecision::Ignore));
}

#[test]
fn bad_sort_shows_its_toast() {
    let mut page = FriendsPage::new();
    page.draft.name = "a".to_string();
    page.draft.url = "b".to_string();
    page.draft.sort = "x".to_string();
    assert!(matches!(page.click_submit(), SubmitDecision::BadSort));
    assert_eq!(page.toast, Some(("排序值必须是整数".to_string(), true)));
    assert!(!page.busy);
}

#[test]
fn save_and_delete_answers() {
    let mut page = FriendsPage::new();
    page.start_edit(link());
    page.busy = true;
    page.save_answered(true, Ok(()));
    assert_eq!(page.toast, Some(("已成功更新友链".to_string(), false)));
    assert!(page.editing.is_none());
    assert_eq!(page.draft.sort, "0");
    assert_eq!(page.reload_gen, 1);
    assert!(!page.busy);
    page.save_answered(false, Err("bad".to_string()));
    assert_eq!(page.toast, Some(("保存失败：bad".to_string(), true)));
    page.delete_answered(Ok(()));
    assert_eq!(page.toast, Some(("已删除友链".to_string(), false)));
    assert_eq!(page.reload_gen, 2);
    page.delete_answered(Err("no".to_string()));
    assert_eq!(page.toast, Some(("删除失败：no".to_string(), true)));
    page.start_edit(link());
    page.cancel_edit();
    assert!(page.editing.is_none());
}

#[test]
fn form_and_row_texts() {
    assert!(submit_disabled(false, false, " ", "u"));
    assert!(!submit_disabled(false, false, "n", "u"));
    assert!(submit_disabled(false, true, "n", "u"));
    assert_eq!(initial("rua"), "R");
    assert_eq!(initial("ß"), "SS");
    assert_eq!(initial("友链"), "友");
    assert_eq!(initial(""), "?");
    assert!(form_shows_initial(" ", false));
    assert!(form_shows_initial("/a.png", true));
    assert!(!form_shows_initial("/a.png", false));
    assert_eq!(form_title(true), "编辑友链");
    assert_eq!(submit_label(true, true), "保存中…");
    assert_eq!(submit_label(false, false), "确认添加");
    assert_eq!(sort_badge(-3), "排序 #-3");
    assert_eq!(active_label(false), "停用");
    assert_eq!(delete_prompt("Rua"), "确定要删除「Rua」吗？");
    assert_eq!(list_heading(4), "已添加友链 (4)");
    assert_eq!(friends_body(true, true), FriendsBody::Skeleton);
    assert_eq!(friends_body(false, true), FriendsBody::Empty);
    assert_eq!(friends_body(true, false), FriendsBody::Rows);
    assert!(list_should_load(1, Some(0)));
    assert!(!list_should_load(1, Some(1)));
    assert!(list_should_load(0, None));
    assert_eq!(link_row_delay(2), 80);
}
