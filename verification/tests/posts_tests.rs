use ygg_admin::posts::{
    delete_alert, posts_body, preview_answer_lands, preview_slug, preview_view, rebuild_failed,
    rebuild_report, title_link, BusyIds, DeleteAnswer, PostSearch, PostsBody, PreviewView,
};

#[test]
fn search_submit_and_clear() {
    let mut s = PostSearch::new();
    s.input = "  rust ".to_string();
    s.page = 3;
    s.submit();
    assert_eq!(s.query, "rust");
    assert_eq!(s.page, 1);
    assert!(s.is_searching());
    assert_eq!(s.title_filter(), Some("rust".to_string()));
    s.clear();
    assert!(!s.is_searching());
    assert_eq!(s.title_filter(), None);
}

#[test]
fn busy_rows() {
    let mut b = BusyIds::new();
    b.insert(4);
    b.insert(4);
    b.insert(7);
    assert_eq!(b.ids.len(), 2);
    assert!(b.contains(4));
    assert!(b.contains(7));
    b.remove(4);
    assert_eq!(b.ids.len(), 1);
    assert!(!b.contains(4));
}

#[test]
fn delete_and_rebuild_feedback() {
    assert_eq!(delete_alert(&DeleteAnswer::Deleted), None);
    assert_eq!(delete_alert(&DeleteAnswer::Refused("有评论".to_string())), Some("有评论".to_string()));
    assert_eq!(delete_alert(&DeleteAnswer::Failed), Some("删除失败".to_string()));
    assert_eq!(rebuild_report(5, 0, &vec![]), "已重建 5 篇文章");
    assert_eq!(rebuild_report(3, 2, &vec!["x: bad".to_string(), "y".to_string()]), "已重建 3 篇，失败 2 篇\nx: bad");
    assert_eq!(rebuild_report(3, 1, &vec![]), "已重建 3 篇，失败 1 篇");
    assert_eq!(rebuild_failed("io"), "失败: io");
}

#[test]
fn list_body_and_links() {
    assert_eq!(posts_body(false, false, true, true), PostsBody::NoMatch);
    assert_eq!(posts_body(false, false, true, false), PostsBody::NoPosts);
    assert_eq!(posts_body(false, true, true, false), PostsBody::Skeleton);
    assert_eq!(posts_body(true, false, false, false), PostsBody::Error);
    assert_eq!(posts_body(false, true, false, false), PostsBody::Table);
    assert_eq!(title_link(true, "a"), "/admin/preview/a");
    assert_eq!(title_link(false, "a"), "/post/a");
}

#[test]
fn preview_answers() {
    assert_eq!(preview_slug(&Some("b".to_string()), "a"), "b");
    assert_eq!(preview_slug(&None, "a"), "a");
    assert!(preview_answer_lands(&Some("a".to_string()), "a"));
    assert!(!preview_answer_lands(&Some("b".to_string()), "a"));
    assert!(!preview_answer_lands(&None, "a"));
    assert_eq!(preview_view(None), PreviewView::Skeleton);
    assert_eq!(preview_view(Some(false)), PreviewView::NotFound);
    assert_eq!(preview_view(Some(true)), PreviewView::Article);
}
