use ygg_admin::comments::{
    avatar_of, comment_date, comment_preview, comments_body, comments_subtitle, post_link, row_actions,
    row_delay, status_filter_from_search, status_key, status_label, status_param, AdminComment,
    CommentStatus, CommentsBody,
};
use ygg_admin::listing::{Listing, Row};

fn comment(status: CommentStatus) -> AdminComment {
    AdminComment {
        author_name: "a".to_string(),
        author_email: "a@b".to_string(),
        avatar_url: String::new(),
        content_md: "hi".to_string(),
        post_title: "t".to_string(),
        post_slug: "s".to_string(),
        status,
        created_at: 0,
    }
}

#[test]
fn status_filter_from_the_address() {
    assert_eq!(status_filter_from_search("?status=pending"), "pending");
    assert_eq!(status_filter_from_search("?page=2&status=spam"), "spam");
    assert_eq!(status_filter_from_search("??status=approved&x=1"), "approved");
    assert_eq!(status_filter_from_search("?statusx=1"), "");
    assert_eq!(status_filter_from_search(""), "");
    assert_eq!(status_param(""), None);
    assert_eq!(status_param("spam"), Some("spam".to_string()));
}

#[test]
fn row_texts() {
    assert_eq!(status_label(CommentStatus::Pending), "待审核");
    assert_eq!(status_key(CommentStatus::Trash), "trash");
    assert_eq!(row_actions(CommentStatus::Approved), (false, true, true));
    assert_eq!(row_actions(CommentStatus::Spam), (true, false, true));
    assert_eq!(comments_subtitle(12), "所有文章评论 (12) · 审核读者互动与拦截垃圾内容");
    assert_eq!(post_link("hello"), "/post/hello");
    assert_eq!(avatar_of(""), None);
    assert_eq!(avatar_of("/a.png"), Some("/a.png".to_string()));
    assert_eq!(comment_date(&comment(CommentStatus::Pending)), Some("1970-01-01".to_string()));
    assert_eq!(row_delay(3), 105);
}

#[test]
fn preview_cuts_at_a_char_boundary() {
    let short = "a".repeat(100);
    assert_eq!(comment_preview(&short), short);
    let long = "a".repeat(120);
    assert_eq!(comment_preview(&long), format!("{}...", "a".repeat(100)));
    // 99 ASCII bytes then a 3-byte character: the cut moves to byte 102.
    let mixed = format!("{}中{}", "a".repeat(99), "b".repeat(10));
    assert_eq!(comment_preview(&mixed), format!("{}中...", "a".repeat(99)));
}

#[test]
fn body_states() {
    assert_eq!(comments_body(true, true, true), CommentsBody::Error);
    assert_eq!(comments_body(false, true, true), CommentsBody::Skeleton);
    assert_eq!(comments_body(false, false, true), CommentsBody::Empty);
    assert_eq!(comments_body(false, true, false), CommentsBody::Table);
}

#[test]
fn batch_status_changes_only_selected_rows() {
    let rows = vec![
        Row { id: 1, item: comment(CommentStatus::Pending) },
        Row { id: 2, item: comment(CommentStatus::Pending) },
        Row { id: 3, item: comment(CommentStatus::Spam) },
    ];
    let mut l = Listing::new(rows, 3);
    l.set_selected(1, true);
    l.set_selected(3, true);
    let mut sent = l.batch_set_status(CommentStatus::Approved);
    sent.sort();
    assert_eq!(sent, vec![1, 3]);
    assert!(l.selected.is_empty());
    assert_eq!(l.rows[0].item.status, CommentStatus::Approved);
    assert_eq!(l.rows[1].item.status, CommentStatus::Pending);
    assert_eq!(l.rows[2].item.status, CommentStatus::Approved);
    l.set_status(2, CommentStatus::Spam);
    assert_eq!(l.rows[1].item.status, CommentStatus::Spam);
}
