//! The post trash: days left before the automatic purge, the row badge,
//! the auto-purge settings card (stepper, dirtiness, summary) and the page
//! subtitle.

use vstd::prelude::*;

use crate::dates::{in_range, utc_format, utc_text};
use crate::logs::differs;
use crate::text::{i64_text, parse_i32, spec_int_text, spec_parse_i32, trim, trim_seq};

verus! {

/// Milliseconds in a day.
pub const DAY_MS: i64 = 86400000;

/// Days left before a trashed post is purged, and whether it is already
/// due: `retention − whole days since deletion` (division rounding toward
/// zero, as the client clock gives it). Without a deletion time the full
/// retention remains.
pub open spec fn remaining_days_spec(deleted_ms: Option<i64>, now_ms: i64, retention_days: i32) -> (
    i64,
    bool,
) {
    match deleted_ms {
        Some(d) => {
            let diff = now_ms - d;
            let elapsed = if diff >= 0 {
                diff / (DAY_MS as int)
            } else {
                -((-diff) / (DAY_MS as int))
            };
            let remaining = retention_days - elapsed;
            (remaining as i64, remaining <= 0)
        },
        None => (retention_days as i64, false),
    }
}

/// Days left before the purge of a trashed post.
pub fn remaining_days(deleted_ms: Option<i64>, now_ms: i64, retention_days: i32) -> (r: (i64, bool))
    requires
        deleted_ms matches Some(d) ==> i64::MIN <= now_ms - d <= i64::MAX,
    ensures
        r == remaining_days_spec(deleted_ms, now_ms, retention_days),
{
    match deleted_ms {
        Some(d) => {
            let diff: i128 = now_ms as i128 - d as i128;
            let elapsed: i128 = if diff >= 0 {
                diff / (DAY_MS as i128)
            } else {
                -((-diff) / (DAY_MS as i128))
            };
            let remaining: i128 = retention_days as i128 - elapsed;
            (remaining as i64, remaining <= 0)
        },
        None => (retention_days as i64, false),
    }
}

/// The days left follow the configured retention: for a post deleted at
/// `d`, no later than `now`, they are the retention less the whole days
/// elapsed since `d`, the post is due exactly when none are left, and one
/// more day of retention leaves one more day. A post without a deletion
/// time keeps the whole retention and is not due.
pub proof fn lemma_days_left_follow_retention(d: i64, now: i64, retention: i32)
    requires
        d <= now,
    ensures
        remaining_days_spec(Some(d), now, retention).0 == retention - (now - d) / (DAY_MS as int),
        remaining_days_spec(Some(d), now, retention).1 == (retention - (now - d) / (DAY_MS as int)
            <= 0),
        retention < i32::MAX ==> remaining_days_spec(Some(d), now, (retention + 1) as i32).0
            == remaining_days_spec(Some(d), now, retention).0 + 1,
        remaining_days_spec(None, now, retention) == (retention as i64, false),
{
    let e = (now - d) / (DAY_MS as int);
    assert(0 <= e <= (now - d)) by (nonlinear_arith)
        requires
            e == (now - d) / (DAY_MS as int),
            now - d >= 0,
    ;
}

/// Badge colours of the days-left cell: due (amber), a week or less
/// (accent), otherwise neutral.
pub fn remaining_badge_class(remaining: i64, expired: bool) -> (r: &'static str)
    ensures
        expired ==> r@ == "bg-amber-100 text-amber-700 dark:bg-amber-900/30 dark:text-amber-400"@,
        !expired && remaining <= 7 ==> r@ == "bg-paper-accent-soft text-paper-accent"@,
        !expired && remaining > 7 ==> r@ == "bg-paper-tertiary text-paper-secondary"@,
{
    if expired {
        "bg-amber-100 text-amber-700 dark:bg-amber-900/30 dark:text-amber-400"
    } else if remaining <= 7 {
        "bg-paper-accent-soft text-paper-accent"
    } else {
        "bg-paper-tertiary text-paper-secondary"
    }
}

/// Text of the days-left cell.
pub fn remaining_badge_text(remaining: i64, expired: bool) -> (r: String)
    ensures
        expired ==> r@ == "待清理"@,
        !expired ==> r@ == spec_int_text(remaining as int) + "天"@,
{
    if expired {
        String::from_str("待清理")
    } else {
        let mut out = i64_text(remaining);
        out.append("天");
        out
    }
}

/// The stepper's reading of the days box: trimmed number, 30 when it does
/// not parse.
pub open spec fn stepper_value(draft: Seq<char>) -> i32 {
    match spec_parse_i32(trim_seq(draft)) {
        Some(d) => d,
        None => 30,
    }
}

/// "−": one day less, never below 1 (saturating at the bottom of `i32`).
pub fn retention_step_down(draft: &str) -> (r: String)
    ensures
        r@ == spec_int_text(
            ({
                let cur = stepper_value(draft@);
                let dec = if cur == i32::MIN {
                    cur as int
                } else {
                    cur - 1
                };
                if dec < 1 {
                    1
                } else {
                    dec
                }
            }),
        ),
{
    let t = trim(draft);
    let cur: i32 = match parse_i32(t.as_str()) {
        Some(d) => d,
        None => 30,
    };
    let dec: i32 = if cur == i32::MIN {
        cur
    } else {
        cur - 1
    };
    let next: i32 = if dec < 1 {
        1
    } else {
        dec
    };
    i64_text(next as i64)
}

/// "+": one day more, never above 365 (saturating at the top of `i32`).
pub fn retention_step_up(draft: &str) -> (r: String)
    ensures
        r@ == spec_int_text(
            ({
                let cur = stepper_value(draft@);
                let inc = if cur == i32::MAX {
                    cur as int
                } else {
                    cur + 1
                };
                if inc > 365 {
                    365
                } else {
                    inc
                }
            }),
        ),
{
    let t = trim(draft);
    let cur: i32 = match parse_i32(t.as_str()) {
        Some(d) => d,
        None => 30,
    };
    let inc: i32 = if cur == i32::MAX {
        cur
    } else {
        cur + 1
    };
    let next: i32 = if inc > 365 {
        365
    } else {
        inc
    };
    i64_text(next as i64)
}

/// The auto-purge card has unsaved changes.
pub fn auto_purge_dirty(draft_enabled: bool, draft_days: &str, saved_enabled: bool, saved_days: i32) -> (r:
    bool)
    ensures
        r == (draft_enabled != saved_enabled || differs(draft_days@, saved_days)),
{
    if draft_enabled != saved_enabled {
        return true;
    }
    crate::logs::draft_differs(draft_days, saved_days)
}

/// The retention to save: the days box as typed (not trimmed), 30 when it
/// does not parse.
pub fn auto_purge_days(draft_days: &str) -> (r: i32)
    ensures
        r == match spec_parse_i32(draft_days@) {
            Some(d) => d,
            None => 30,
        },
{
    match parse_i32(draft_days) {
        Some(d) => d,
        None => 30,
    }
}

/// The folded card's summary.
pub fn auto_purge_summary(enabled: bool, retention_days: i32) -> (r: String)
    ensures
        enabled ==> r@ == "已开启 · 超过 "@ + spec_int_text(retention_days as int) + " 天的文章将被自动删除"@,
        !enabled ==> r@ == "已关闭"@,
{
    if enabled {
        let mut out = String::from_str("已开启 · 超过 ");
        let d = i64_text(retention_days as i64);
        out.append(d.as_str());
        out.append(" 天的文章将被自动删除");
        out
    } else {
        String::from_str("已关闭")
    }
}

/// The page subtitle: the count is shown once known (not during the first
/// load).
pub fn trash_subtitle(total: i64, loading: bool) -> (r: String)
    ensures
        (total > 0 || !loading) ==> r@ == "已删除文章 ("@ + spec_int_text(total as int) + ")"@,
        !(total > 0 || !loading) ==> r@ == "已删除文章"@,
{
    if total > 0 || !loading {
        let mut out = String::from_str("已删除文章 (");
        let n = i64_text(total);
        out.append(n.as_str());
        out.append(")");
        out
    } else {
        String::from_str("已删除文章")
    }
}

/// Whole seconds of a millisecond timestamp (rounding down).
pub fn ms_to_secs(ms: i64) -> (r: i64)
    ensures
        r == ms as int / 1000,
{
    let q = ms / 1000;
    if ms < 0 && ms % 1000 != 0 {
        q - 1
    } else {
        q
    }
}

/// A row's deletion date, or "—" without one (`None` only for a time
/// chrono cannot represent).
pub fn deleted_date(deleted_ms: Option<i64>) -> (r: Option<String>)
    ensures
        deleted_ms is None ==> (r matches Some(s) && s@ == "—"@),
        deleted_ms matches Some(ms) ==> (r matches Some(s) ==> s@ == utc_format(ms as int / 1000, "%Y-%m-%d"@)),
        deleted_ms matches Some(ms) ==> (in_range(ms as int / 1000) ==> r is Some),
{
    match deleted_ms {
        None => Some(String::from_str("—")),
        Some(ms) => utc_text(ms_to_secs(ms), "%Y-%m-%d"),
    }
}

} // verus!
