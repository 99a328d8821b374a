use ygg_admin::dashboard::{
    count_up_step, id_label, panel, pending_highlighted, recent_row_delay, recent_shown, sparkline_scale,
    sparkline_shown, trend_badge, CountUpStep, Dashboard, Panel, PostStats,
};

#[test]
fn panels_show_data_failure_or_skeleton() {
    assert_eq!(panel(true, true), Panel::Ready);
    assert_eq!(panel(false, true), Panel::Failed);
    assert_eq!(panel(false, false), Panel::Loading);
}

#[test]
fn loads_issue_once_and_retry_rearms() {
    let mut d = Dashboard::new();
    assert!(d.begin());
    assert!(!d.begin());
    d.stats_answered(None);
    d.pending_answered(Some(3));
    d.posts_answered(Some(2));
    assert_eq!(d.stats_panel(), Panel::Failed);
    assert_eq!(d.pending_panel(), Panel::Ready);
    d.retry();
    assert_eq!(d.stats_panel(), Panel::Loading);
    assert!(d.begin());
    d.stats_answered(Some(PostStats { total: 5, published: 4, drafts: 1, recent_30d: 2 }));
    assert_eq!(d.stats_panel(), Panel::Ready);
    assert_eq!(d.posts_panel(), Panel::Ready);
}

#[test]
fn trend_badge_text() {
    assert_eq!(trend_badge(3), ("↑ 近30天 +3".to_string(), true));
    assert_eq!(trend_badge(0), ("近30天 +0".to_string(), false));
    assert_eq!(trend_badge(-2), ("近30天 +0".to_string(), false));
}

#[test]
fn cards_and_rows() {
    assert!(pending_highlighted(1));
    assert!(!pending_highlighted(0));
    assert_eq!(recent_row_delay(4), 320);
    assert_eq!(recent_shown(9), 5);
    assert_eq!(recent_shown(2), 2);
    assert_eq!(id_label(7), "#0007");
    assert_eq!(id_label(12345), "#12345");
    assert_eq!(id_label(-1), "#-001");
}

#[test]
fn sparkline_scale_is_at_least_one() {
    assert_eq!(sparkline_scale(&vec![]), 1);
    assert_eq!(sparkline_scale(&vec![0, 0, 0]), 1);
    assert_eq!(sparkline_scale(&vec![2, 9, 4]), 9);
    assert!(!sparkline_shown(1));
    assert!(sparkline_shown(2));
}

#[test]
fn count_up_steps() {
    assert_eq!(count_up_step(10, true, 0), CountUpStep::Final);
    assert_eq!(count_up_step(0, false, 0), CountUpStep::Final);
    assert_eq!(count_up_step(10, false, 100), CountUpStep::Ease);
    assert_eq!(count_up_step(10, false, 450), CountUpStep::Final);
}
