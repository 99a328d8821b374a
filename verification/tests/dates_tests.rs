use ygg_admin::dates::{date_minute_text, date_text, month_day_minute_text, time_of_day_text};

#[test]
fn epoch_renders() {
    assert_eq!(date_text(0), Some("1970-01-01".to_string()));
    assert_eq!(time_of_day_text(0), Some("00:00:00".to_string()));
}

#[test]
fn known_instant_renders_in_utc() {
    // 2024-02-29T13:45:30Z
    let t = 1709214330;
    assert_eq!(date_text(t), Some("2024-02-29".to_string()));
    assert_eq!(date_minute_text(t), Some("2024-02-29 13:45".to_string()));
    assert_eq!(month_day_minute_text(t), Some("02-29 13:45".to_string()));
    assert_eq!(time_of_day_text(t), Some("13:45:30".to_string()));
}

#[test]
fn before_the_epoch() {
    assert_eq!(date_text(-1), Some("1969-12-31".to_string()));
}

#[test]
fn out_of_range_is_none() {
    assert_eq!(date_text(i64::MAX), None);
    assert_eq!(date_text(i64::MIN), None);
}
