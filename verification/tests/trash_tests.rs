use ygg_admin::trash::{
    auto_purge_days, auto_purge_dirty, auto_purge_summary, deleted_date, ms_to_secs, remaining_badge_class,
    remaining_badge_text, remaining_days, retention_step_down, retention_step_up, trash_subtitle, DAY_MS,
};

#[test]
fn days_left_before_purge() {
    let now = 100 * DAY_MS;
    assert_eq!(remaining_days(Some(now - 3 * DAY_MS - 5), now, 30), (27, false));
    assert_eq!(remaining_days(Some(now - 40 * DAY_MS), now, 30), (-10, true));
    assert_eq!(remaining_days(Some(now - 30 * DAY_MS), now, 30), (0, true));
    assert_eq!(remaining_days(None, now, 30), (30, false));
    // A deletion time in the future (clock skew) rounds toward zero.
    assert_eq!(remaining_days(Some(now + DAY_MS + 1), now, 30), (31, false));
}

#[test]
fn days_left_badge() {
    assert_eq!(remaining_badge_text(5, false), "5天");
    assert_eq!(remaining_badge_text(-1, true), "待清理");
    assert_eq!(remaining_badge_class(5, false), "bg-paper-accent-soft text-paper-accent");
    assert_eq!(remaining_badge_class(8, false), "bg-paper-tertiary text-paper-secondary");
}

#[test]
fn stepper_stays_in_range() {
    assert_eq!(retention_step_down("1"), "1");
    assert_eq!(retention_step_down(" 10 "), "9");
    assert_eq!(retention_step_down("abc"), "29");
    assert_eq!(retention_step_up("365"), "365");
    assert_eq!(retention_step_up("x"), "31");
    assert_eq!(retention_step_up("-2147483648"), "-2147483647");
}

#[test]
fn auto_purge_card() {
    assert!(!auto_purge_dirty(true, "30", true, 30));
    assert!(auto_purge_dirty(false, "30", true, 30));
    assert!(auto_purge_dirty(true, "31", true, 30));
    assert_eq!(auto_purge_days("45"), 45);
    assert_eq!(auto_purge_days(" 45"), 30);
    assert_eq!(auto_purge_summary(true, 30), "已开启 · 超过 30 天的文章将被自动删除");
    assert_eq!(auto_purge_summary(false, 30), "已关闭");
}

#[test]
fn subtitle_and_dates() {
    assert_eq!(trash_subtitle(0, true), "已删除文章");
    assert_eq!(trash_subtitle(0, false), "已删除文章 (0)");
    assert_eq!(trash_subtitle(3, true), "已删除文章 (3)");
    assert_eq!(ms_to_secs(-1), -1);
    assert_eq!(ms_to_secs(1999), 1);
    assert_eq!(deleted_date(None), Some("—".to_string()));
    assert_eq!(deleted_date(Some(1709214330123)), Some("2024-02-29".to_string()));
    assert_eq!(deleted_date(Some(-1)), Some("1969-12-31".to_string()));
}
