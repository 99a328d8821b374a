use ygg_admin::settings::{
    apply_i32_input, apply_u32_input, apply_u64_input, compression_text, github_dirty, key_set_text,
    languages_input, on_off_text, proxy_count_choice, rate_limits_dirty, save_disabled, seconds_text,
    session_cap_choice, spy_lock_timeout, spy_on_click, spy_on_scroll, toast_should_close,
    visible_section, RateLimits, SettingsSection,
};

#[test]
fn sections_in_order() {
    let all = SettingsSection::all();
    assert_eq!(all.len(), 10);
    assert_eq!(all[0], SettingsSection::Site);
    assert_eq!(all[9], SettingsSection::System);
    assert_eq!(SettingsSection::RateLimit.as_str(), "ratelimit");
    assert_eq!(SettingsSection::Runner.label(), "运行器");
    assert_eq!(SettingsSection::Trash.dom_id(), "settings-sec-trash");
    assert!(SettingsSection::Site.icon_path().starts_with("M3 9l9-7"));
}

#[test]
fn scroll_spy_picks_the_last_section_past_the_line() {
    assert_eq!(visible_section(true, &vec![]), SettingsSection::System);
    assert_eq!(visible_section(false, &vec![]), SettingsSection::Site);
    assert_eq!(visible_section(false, &vec![Some(false), Some(false)]), SettingsSection::Site);
    assert_eq!(visible_section(false, &vec![Some(true), Some(true), Some(false)]), SettingsSection::Security);
    // A missing anchor stops the scan.
    assert_eq!(visible_section(false, &vec![Some(true), None, Some(true)]), SettingsSection::Site);
    let all_past = vec![Some(true); 12];
    assert_eq!(visible_section(false, &all_past), SettingsSection::System);
}

#[test]
fn navigation_lock() {
    let (active, generation, lock) = spy_on_click(SettingsSection::Backup, 4);
    assert_eq!(active, SettingsSection::Backup);
    assert_eq!(generation, 5);
    assert_eq!(lock, Some((SettingsSection::Backup, 5)));
    // While locked, scrolling past other sections does not move the highlight.
    assert_eq!(spy_on_scroll(active, lock, SettingsSection::Image), (SettingsSection::Backup, lock));
    // Reaching the target unlocks.
    assert_eq!(spy_on_scroll(active, lock, SettingsSection::Backup), (SettingsSection::Backup, None));
    // Unlocked, the highlight follows.
    assert_eq!(spy_on_scroll(active, None, SettingsSection::Cache), (SettingsSection::Cache, None));
    // A stale timeout leaves a newer lock alone.
    assert_eq!(spy_lock_timeout(lock, 4), lock);
    assert_eq!(spy_lock_timeout(lock, 5), None);
    assert_eq!(spy_on_click(SettingsSection::Site, u32::MAX).1, 0);
}

#[test]
fn toast_closes_only_its_own_message() {
    let t = Some(("保存成功".to_string(), false));
    assert!(toast_should_close(&t, "保存成功"));
    assert!(!toast_should_close(&t, "加载失败"));
    assert!(!toast_should_close(&None, "保存成功"));
}

#[test]
fn form_inputs() {
    assert!(save_disabled(true, false, true));
    assert!(save_disabled(false, false, false));
    assert!(!save_disabled(false, false, true));
    assert_eq!(apply_u32_input(5, "12"), 12);
    assert_eq!(apply_u32_input(5, "-1"), 5);
    assert_eq!(apply_u64_input(5, "x"), 5);
    assert_eq!(apply_i32_input(5, "-7"), -7);
    assert_eq!(languages_input("  ".to_string()), None);
    assert_eq!(languages_input("python,go".to_string()), Some("python,go".to_string()));
    assert_eq!(proxy_count_choice(-1), 0);
    assert_eq!(proxy_count_choice(2), 2);
    assert_eq!(session_cap_choice(0), 1);
    assert_eq!(session_cap_choice(20), 20);
    assert!(!github_dirty(" github.com/x ", "github.com/x"));
    assert!(github_dirty("github.com/y", "github.com/x"));
}

#[test]
fn rate_limit_form() {
    let a = RateLimits {
        strict_per_sec: 1,
        strict_burst: 5,
        upload_per_sec: 2,
        upload_burst: 10,
        image_per_sec: 50,
        image_burst: 100,
        comment_per_sec: 1,
        comment_burst: 3,
        code_exec_per_sec: 1,
        code_exec_burst: 2,
        code_exec_daily: 100,
        unknown_per_sec: 1,
        unknown_burst: 1,
        gc_interval_secs: 60,
    };
    let mut b = a;
    assert!(!rate_limits_dirty(&a, &b));
    b.gc_interval_secs = 61;
    assert!(rate_limits_dirty(&a, &b));
}

#[test]
fn system_rows() {
    assert_eq!(seconds_text(30), "30 秒");
    assert_eq!(compression_text(""), "off");
    assert_eq!(compression_text("gzip,br"), "gzip,br");
    assert_eq!(on_off_text(true), "开启");
    assert_eq!(key_set_text(false), "未设置");
}
