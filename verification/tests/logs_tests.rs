use ygg_admin::logs::{
    cleanup_dirty, cleanup_summary, cleanup_values, entry_time, export_message, filter_key, gap_text,
    level_badge_class, line_count, local_date_text, log_export_filename, logs_subtitle, near_bottom, parse_gap_count,
    sort_entries_by_id, stream_url, target_label, target_option_selected, target_select_key, LevelSet,
    LiveStream, LogBuffer, LogEntry, LogLevel, LogRowKind, StreamEvent, SelectKey, SelectKeyAction,
};

fn entry(id: i64, msg: &str) -> LogEntry {
    LogEntry {
        id,
        ts_secs: 3661,
        ts_nanos: 0,
        level: "INFO".to_string(),
        target: "app".to_string(),
        message: msg.to_string(),
    }
}

#[test]
fn initial_levels_and_csv() {
    let s = LevelSet::initial();
    assert_eq!(s.levels_csv(), "ERROR,WARN,INFO");
    let t = s.toggle(LogLevel::Warn).toggle(LogLevel::Trace);
    assert_eq!(t.levels_csv(), "ERROR,INFO,TRACE");
    assert!(!s.is_empty());
}

#[test]
fn toggling_a_level_twice_restores_it() {
    let s = LevelSet::initial();
    assert!(s.toggle(LogLevel::Debug).toggle(LogLevel::Debug) == s);
}

#[test]
fn level_order_does_not_depend_on_clicks() {
    let s = LevelSet::initial();
    let a = s.toggle(LogLevel::Trace).toggle(LogLevel::Error);
    let b = s.toggle(LogLevel::Error).toggle(LogLevel::Trace);
    assert_eq!(a.levels_csv(), b.levels_csv());
    assert_eq!(a.levels_csv(), "WARN,INFO,TRACE");
}

#[test]
fn filter_key_and_stream_url() {
    let s = LevelSet::initial();
    assert_eq!(filter_key(&s, &Some("db".to_string()), "err"), "ERROR,WARN,INFO|db|err");
    assert_eq!(filter_key(&s, &None, ""), "ERROR,WARN,INFO||");
    assert_eq!(stream_url(&s, "", ""), "/api/logs/stream?levels=ERROR,WARN,INFO");
    assert_eq!(stream_url(&s, "a%3Ab", "x%20y"), "/api/logs/stream?levels=ERROR,WARN,INFO&target=a%3Ab&q=x%20y");
}

#[test]
fn badge_classes() {
    assert_eq!(level_badge_class("ERROR"), "bg-red-100 text-red-700 dark:bg-red-900/30 dark:text-red-300");
    assert_eq!(level_badge_class("TRACE"), "text-[var(--color-paper-tertiary)]");
}

#[test]
fn sticking_to_the_bottom() {
    assert!(near_bottom(1000, 600, 360));
    assert!(!near_bottom(1000, 500, 360));
}

#[test]
fn export_file_name() {
    assert_eq!(log_export_filename("2024-05-06T10:00:00.000Z"), "yggdrasil-logs-2024-05-06.log");
    assert_eq!(log_export_filename("short"), "yggdrasil-logs-unknown-date.log");
}

#[test]
fn history_is_sorted_stably_by_id() {
    let sorted = sort_entries_by_id(vec![entry(3, "c"), entry(1, "a"), entry(3, "d"), entry(2, "b")]);
    let msgs: Vec<&str> = sorted.iter().map(|e| e.message.as_str()).collect();
    assert_eq!(msgs, vec!["a", "b", "c", "d"]);
}

#[test]
fn live_pane_is_capped() {
    let mut b = LogBuffer::new();
    for _ in 0..2001 {
        b.push_live(entry(0, "live"));
    }
    assert_eq!(b.rows.len(), 1501);
    assert_eq!(b.rows[0].key, 501);
    assert_eq!(b.next_key, 2002);
}

#[test]
fn older_pages_skip_shown_records() {
    let mut b = LogBuffer::new();
    b.load_history(vec![entry(5, "e"), entry(4, "d")]);
    assert!(b.shows_id(4));
    assert!(!b.shows_id(3));
    assert!(b.prepend_older(vec![entry(4, "dup"), entry(2, "b"), entry(3, "c")]));
    let ids: Vec<i64> = b
        .rows
        .iter()
        .map(|r| match &r.kind {
            LogRowKind::Entry(e) => e.id,
            LogRowKind::Gap(_) => -1,
        })
        .collect();
    assert_eq!(ids, vec![2, 3, 4, 5]);
    assert!(!b.prepend_older(vec![entry(2, "again")]));
}

#[test]
fn gap_rows() {
    assert_eq!(parse_gap_count("missed 12 log events"), Some(12));
    assert_eq!(parse_gap_count("missed"), None);
    assert_eq!(gap_text(Some(12)), "…部分日志已跳过（12 条）…");
    assert_eq!(gap_text(None), "…部分日志已跳过…");
    let mut b = LogBuffer::new();
    b.push_gap(Some(3));
    assert!(matches!(b.rows[0].kind, LogRowKind::Gap(Some(3))));
}

#[test]
fn export_counts_lines() {
    assert_eq!(line_count("a\nb\n"), 2);
    assert_eq!(line_count("a\nb"), 2);
    assert_eq!(line_count(""), 0);
    assert_eq!(export_message("x\ny"), "已导出 2 条日志");
}

#[test]
fn subtitle_mentions_drops() {
    assert_eq!(logs_subtitle(0), "进程内结构化日志 · 历史查询 + 实时流");
    assert_eq!(logs_subtitle(7), "进程内结构化日志 · 历史查询 + 实时流 · 启动以来丢弃 7 条");
}

#[test]
fn cleanup_policy_form() {
    assert!(!cleanup_dirty(" 7 ", "100000", 7, 100000));
    assert!(cleanup_dirty("x", "100000", 7, 100000));
    assert_eq!(cleanup_values("500", "abc"), (90, 100000));
    assert_eq!(cleanup_values("0", "5"), (1, 1000));
    assert_eq!(cleanup_summary(7, 100000), "保留 7 天 · 上限 100000 行");
}

#[test]
fn target_dropdown() {
    assert_eq!(target_select_key(false, SelectKey::Space), SelectKeyAction::Open);
    assert_eq!(target_select_key(true, SelectKey::Escape), SelectKeyAction::Close);
    assert_eq!(target_select_key(true, SelectKey::Enter), SelectKeyAction::Ignore);
    assert_eq!(target_select_key(false, SelectKey::Tab), SelectKeyAction::Ignore);
    assert_eq!(target_label(&None), "全部 target");
    assert_eq!(target_label(&Some("db".to_string())), "db");
    assert!(target_option_selected(&Some("db".to_string()), "db"));
    assert!(!target_option_selected(&None, "db"));
}

#[test]
fn entry_time_of_day() {
    assert_eq!(entry_time(&entry(1, "x")), Some("01:01:01".to_string()));
}

#[test]
fn export_file_dated_by_local_calendar_date() {
    assert_eq!(local_date_text(2024, 3, 5), "2024-03-05");
    assert_eq!(local_date_text(987, 12, 31), "0987-12-31");
    assert_eq!(log_export_filename(&local_date_text(2024, 3, 5)), "yggdrasil-logs-2024-03-05.log");
}

#[test]
fn live_stream_events() {
    let mut s = LiveStream::new();
    s.on_event(StreamEvent::Open);
    assert!(s.connected);
    s.on_event(StreamEvent::Log(Some(entry(0, "a"))));
    s.on_event(StreamEvent::Log(Some(entry(0, "a"))));
    assert_eq!(s.buffer.rows.len(), 2);
    s.on_event(StreamEvent::Log(None));
    assert_eq!(s.buffer.rows.len(), 2);
    s.on_event(StreamEvent::Gap(Some("missed 7 log events".to_string())));
    assert!(matches!(s.buffer.rows[2].kind, LogRowKind::Gap(Some(7))));
    s.on_event(StreamEvent::Gap(Some("lagged".to_string())));
    assert!(matches!(s.buffer.rows[3].kind, LogRowKind::Gap(None)));
    s.on_event(StreamEvent::Error);
    assert!(!s.connected);
    assert_eq!(s.buffer.rows.len(), 4);
    for i in 0..1997 {
        s.on_event(StreamEvent::Log(Some(entry(0, &i.to_string()))));
    }
    assert_eq!(s.buffer.rows.len(), 1501);
}
