use ygg_admin::profile::SaveHint;
use ygg_admin::sections::{
    backup_dirty, cache_dirty, checkbox_checked, concurrency_current, concurrency_options, github_current,
    image_limits_dirty, languages_box, limiter_labels, load_failed_text, proxy_options, runner_dirty,
    save_failed_text, saved_hint_text, security_dirty, session_options, system_view, trash_section_dirty,
    webp_dirty, BackupDraft, CacheLimits, ImageLimits, RunnerLimits, SaveCycle, SecuritySettings, SystemView,
};

#[test]
fn save_cycle() {
    let mut c = SaveCycle::new();
    assert!(c.save_disabled(true));
    c.load_done();
    assert!(!c.save_disabled(true));
    assert_eq!(c.hint(true), SaveHint::Unsaved);
    c.save_started();
    assert!(c.saving);
    c.save_done(true);
    assert!(!c.saving);
    assert!(c.save_disabled(true));
    assert_eq!(c.hint(false), SaveHint::Saved);
    c.edited();
    assert_eq!(c.hint(false), SaveHint::Blank);
    c.save_started();
    c.save_done(false);
    assert!(!c.just_saved);
}

#[test]
fn section_texts() {
    assert_eq!(saved_hint_text(true), "已保存（重启后生效）");
    assert_eq!(saved_hint_text(false), "已保存");
    assert_eq!(load_failed_text("", "x"), "加载失败：x");
    assert_eq!(load_failed_text("WebP ", "x"), "WebP 加载失败：x");
    assert_eq!(save_failed_text("x"), "保存失败：x");
    assert_eq!(github_current(""), "未配置（不展示图标）");
    assert_eq!(github_current("https://github.com/a"), "https://github.com/a");
    assert_eq!(concurrency_current(3), "3 路并发");
}

#[test]
fn select_options() {
    let p = proxy_options();
    assert_eq!(p.len(), 6);
    assert_eq!(p[1], (1, "1（一层代理，如 nginx/Caddy）"));
    let s = session_options();
    assert_eq!(s[2], (5, "5（默认）"));
    let c = concurrency_options();
    assert_eq!(c.len(), 8);
    assert_eq!(c[7].0, 8);
    assert_eq!(limiter_labels()[4], "代码执行限流");
}

#[test]
fn dirtiness_per_section() {
    let a = SecuritySettings {
        app_base_url: "https://x".to_string(),
        cookie_secure: true,
        trusted_proxy_count: 1,
        max_sessions_per_user: 5,
    };
    assert!(!security_dirty(&a, &SecuritySettings { app_base_url: "https://x".to_string(), cookie_secure: true, trusted_proxy_count: 1, max_sessions_per_user: 5 }));
    assert!(security_dirty(&a, &SecuritySettings { app_base_url: "https://y".to_string(), cookie_secure: true, trusted_proxy_count: 1, max_sessions_per_user: 5 }));
    assert!(cache_dirty(CacheLimits { max_mb: 1024, max_age_hours: 168 }, CacheLimits { max_mb: 1024, max_age_hours: 24 }));
    assert!(!image_limits_dirty(
        ImageLimits { max_dimension: 8192, max_pixels: 50_000_000, dimensions_cache_ttl_secs: 86400 },
        ImageLimits { max_dimension: 8192, max_pixels: 50_000_000, dimensions_cache_ttl_secs: 86400 }
    ));
    assert!(webp_dirty(true, 2, 2));
    assert!(!webp_dirty(false, 2, 2));
    assert!(trash_section_dirty(true, 30, false, 30));
    assert!(!trash_section_dirty(true, 30, true, 30));
    let backup = BackupDraft { auto_enabled: true, time_local: "04:00".to_string(), retention_count: 30, include_uploads: true };
    let moved = BackupDraft { auto_enabled: true, time_local: "05:00".to_string(), retention_count: 30, include_uploads: true };
    assert!(backup_dirty(&moved, &backup));
    assert!(!backup_dirty(&backup, &BackupDraft { time_local: "04:00".to_string(), ..moved }));
}

#[test]
fn runner_section() {
    let r = RunnerLimits {
        allow_network: false,
        max_concurrent: 4,
        max_memory_mb: 256,
        max_timeout_secs: 10,
        max_output_bytes: 65536,
        max_source_bytes: 65536,
        queue_timeout_secs: 30,
        task_ttl_secs: 600,
        languages: None,
    };
    let same = RunnerLimits { languages: None, ..r };
    assert!(!runner_dirty(&r, &same, false));
    assert!(runner_dirty(&r, &same, true));
    let listed = RunnerLimits { languages: Some("go".to_string()), ..r };
    assert!(runner_dirty(&listed, &same, false));
    let more_memory = RunnerLimits { max_memory_mb: 512, languages: None, ..r };
    assert!(runner_dirty(&more_memory, &same, false));
    assert!(checkbox_checked("true"));
    assert!(!checkbox_checked("on"));
    assert_eq!(languages_box(&None), "");
    assert_eq!(languages_box(&Some("go".to_string())), "go");
    assert_eq!(system_view(true, true), SystemView::Loading);
    assert_eq!(system_view(false, false), SystemView::Unavailable);
    assert_eq!(system_view(false, true), SystemView::Rows);
}
