//! The site settings page: its sections (order, labels, anchors), the
//! scroll-spy that highlights the section being read, the navigation lock
//! during smooth scrolling, the shared toast, and the forms' input rules.

use vstd::prelude::*;

use crate::text::{i64_text, parse_i32, parse_u32, parse_u64, spec_int_text, spec_parse_i32, spec_parse_u32, spec_parse_u64, str_eq, trim, trim_seq};

verus! {

/// The sections of the settings page, in navigation order.
#[derive(Clone, Copy, Debug, PartialEq, Eq, Structural)]
pub enum SettingsSection {
    Site,
    Security,
    Cache,
    RateLimit,
    Image,
    Runner,
    Backup,
    Trash,
    Upload,
    System,
}

/// The sections in navigation order.
pub open spec fn sections() -> Seq<SettingsSection> {
    seq![
        SettingsSection::Site,
        SettingsSection::Security,
        SettingsSection::Cache,
        SettingsSection::RateLimit,
        SettingsSection::Image,
        SettingsSection::Runner,
        SettingsSection::Backup,
        SettingsSection::Trash,
        SettingsSection::Upload,
        SettingsSection::System,
    ]
}

/// The stable key of a section.
pub open spec fn section_key(s: SettingsSection) -> Seq<char> {
    match s {
        SettingsSection::Site => "site"@,
        SettingsSection::Security => "security"@,
        SettingsSection::Cache => "cache"@,
        SettingsSection::RateLimit => "ratelimit"@,
        SettingsSection::Image => "image"@,
        SettingsSection::Runner => "runner"@,
        SettingsSection::Backup => "backup"@,
        SettingsSection::Trash => "trash"@,
        SettingsSection::Upload => "upload"@,
        SettingsSection::System => "system"@,
    }
}

/// The navigation label of a section.
pub open spec fn section_label(s: SettingsSection) -> Seq<char> {
    match s {
        SettingsSection::Site => "站点"@,
        SettingsSection::Security => "安全"@,
        SettingsSection::Cache => "缓存"@,
        SettingsSection::RateLimit => "限流"@,
        SettingsSection::Image => "图片"@,
        SettingsSection::Runner => "运行器"@,
        SettingsSection::Backup => "备份"@,
        SettingsSection::Trash => "回收站"@,
        SettingsSection::Upload => "上传"@,
        SettingsSection::System => "系统"@,
    }
}

impl SettingsSection {
    /// The stable key.
    pub fn as_str(&self) -> (r: &'static str)
        ensures
            r@ == section_key(*self),
    {
        match self {
            SettingsSection::Site => "site",
            SettingsSection::Security => "security",
            SettingsSection::Cache => "cache",
            SettingsSection::RateLimit => "ratelimit",
            SettingsSection::Image => "image",
            SettingsSection::Runner => "runner",
            SettingsSection::Backup => "backup",
            SettingsSection::Trash => "trash",
            SettingsSection::Upload => "upload",
            SettingsSection::System => "system",
        }
    }

    /// The navigation label.
    pub fn label(&self) -> (r: &'static str)
        ensures
            r@ == section_label(*self),
    {
        match self {
            SettingsSection::Site => "站点",
            SettingsSection::Security => "安全",
            SettingsSection::Cache => "缓存",
            SettingsSection::RateLimit => "限流",
            SettingsSection::Image => "图片",
            SettingsSection::Runner => "运行器",
            SettingsSection::Backup => "备份",
            SettingsSection::Trash => "回收站",
            SettingsSection::Upload => "上传",
            SettingsSection::System => "系统",
        }
    }

    /// The icon outline (an SVG path) of a section.
    pub fn icon_path(&self) -> (r: &'static str)
        ensures
            r@ == section_icon(*self),
    {
        match self {
            SettingsSection::Site => "M3 9l9-7 9 7v11a2 2 0 0 1-2 2H5a2 2 0 0 1-2-2z M9 22V12h6v10",
            SettingsSection::Security => "M12 22s8-4 8-10V5l-8-3-8 3v7c0 6 8 10 8 10z",
            SettingsSection::Cache => "M21 8v13H3V8 M1 3h22v5H1z M10 12h4",
            SettingsSection::RateLimit => "M12 2a10 10 0 1 0 10 10A10 10 0 0 0 12 2z M12 6v6l4 2",
            SettingsSection::Image => "M21 15l-5-5L5 21 M18 21H3V3h18v9z M8.5 8.5a1.5 1.5 0 1 1-3 0 1.5 1.5 0 0 1 3 0z",
            SettingsSection::Runner => "M16 18l6-6-6-6 M8 6l-6 6 6 6",
            SettingsSection::Backup => "M21 15v4a2 2 0 0 1-2 2H5a2 2 0 0 1-2-2v-4 M7 10l5 5 5-5 M12 15V3",
            SettingsSection::Trash => "M3 6h18 M19 6v14a2 2 0 0 1-2 2H7a2 2 0 0 1-2-2V6m3 0V4a2 2 0 0 1 2-2h4a2 2 0 0 1 2 2v2 M10 11v6 M14 11v6",
            SettingsSection::Upload => "M21 15v4a2 2 0 0 1-2 2H5a2 2 0 0 1-2-2v-4 M17 8l-5-5-5 5 M12 3v12",
            SettingsSection::System => "M4 4h16c1.1 0 2 .9 2 2v12c0 1.1-.9 2-2 2H4c-1.1 0-2-.9-2-2V6c0-1.1.9-2 2-2z M22 6l-10 7L2 6",
        }
    }

    /// All sections, in navigation order.
    pub fn all() -> (r: [SettingsSection; 10])
        ensures
            r@ == sections(),
    {
        let r = [
            SettingsSection::Site,
            SettingsSection::Security,
            SettingsSection::Cache,
            SettingsSection::RateLimit,
            SettingsSection::Image,
            SettingsSection::Runner,
            SettingsSection::Backup,
            SettingsSection::Trash,
            SettingsSection::Upload,
            SettingsSection::System,
        ];
        proof {
            assert(r@ =~= sections());
        }
        r
    }

    /// The DOM id of the section's anchor.
    pub fn dom_id(&self) -> (r: String)
        ensures
            r@ == "settings-sec-"@ + section_key(*self),
    {
        let mut out = String::from_str("settings-sec-");
        out.append(self.as_str());
        out
    }
}

/// The icon outline of a section.
pub open spec fn section_icon(s: SettingsSection) -> Seq<char> {
    match s {
        SettingsSection::Site => "M3 9l9-7 9 7v11a2 2 0 0 1-2 2H5a2 2 0 0 1-2-2z M9 22V12h6v10"@,
        SettingsSection::Security => "M12 22s8-4 8-10V5l-8-3-8 3v7c0 6 8 10 8 10z"@,
        SettingsSection::Cache => "M21 8v13H3V8 M1 3h22v5H1z M10 12h4"@,
        SettingsSection::RateLimit => "M12 2a10 10 0 1 0 10 10A10 10 0 0 0 12 2z M12 6v6l4 2"@,
        SettingsSection::Image => "M21 15l-5-5L5 21 M18 21H3V3h18v9z M8.5 8.5a1.5 1.5 0 1 1-3 0 1.5 1.5 0 0 1 3 0z"@,
        SettingsSection::Runner => "M16 18l6-6-6-6 M8 6l-6 6 6 6"@,
        SettingsSection::Backup => "M21 15v4a2 2 0 0 1-2 2H5a2 2 0 0 1-2-2v-4 M7 10l5 5 5-5 M12 15V3"@,
        SettingsSection::Trash => "M3 6h18 M19 6v14a2 2 0 0 1-2 2H7a2 2 0 0 1-2-2V6m3 0V4a2 2 0 0 1 2-2h4a2 2 0 0 1 2 2v2 M10 11v6 M14 11v6"@,
        SettingsSection::Upload => "M21 15v4a2 2 0 0 1-2 2H5a2 2 0 0 1-2-2v-4 M17 8l-5-5-5 5 M12 3v12"@,
        SettingsSection::System => "M4 4h16c1.1 0 2 .9 2 2v12c0 1.1-.9 2-2 2H4c-1.1 0-2-.9-2-2V6c0-1.1.9-2 2-2z M22 6l-10 7L2 6"@,
    }
}

/// Length of the leading run of sections whose anchor exists and whose top
/// has passed the reading line (`probes[k]`: `None` when the anchor is
/// missing, else whether its top is at most 40 px below the container's).
pub open spec fn passed_run(probes: Seq<Option<bool>>) -> nat
    decreases probes.len(),
{
    if probes.len() == 0 {
        0
    } else if probes[0] == Some(true) {
        1 + passed_run(probes.drop_first())
    } else {
        0
    }
}

/// The section being read: the last one when scrolled to the bottom,
/// otherwise the last of the leading run of sections past the reading
/// line, or the first section when none has passed it yet.
pub open spec fn visible_section_spec(at_bottom: bool, probes: Seq<Option<bool>>) -> SettingsSection {
    let k = passed_run(leading_probes(probes));
    if at_bottom {
        SettingsSection::System
    } else if k == 0 {
        SettingsSection::Site
    } else {
        sections()[k - 1]
    }
}

/// The probes of the sections that exist: at most one per section.
pub open spec fn leading_probes(probes: Seq<Option<bool>>) -> Seq<Option<bool>> {
    if probes.len() <= 10 {
        probes
    } else {
        probes.take(10)
    }
}

proof fn lemma_passed_run_bound(probes: Seq<Option<bool>>)
    ensures
        passed_run(probes) <= probes.len(),
    decreases probes.len(),
{
    if probes.len() > 0 && probes[0] == Some(true) {
        lemma_passed_run_bound(probes.drop_first());
    }
}

proof fn lemma_passed_run_prefix(probes: Seq<Option<bool>>, i: int)
    requires
        0 <= i <= probes.len(),
        forall|k: int| 0 <= k < i ==> probes[k] == Some(true),
    ensures
        passed_run(probes) == i + passed_run(probes.subrange(i, probes.len() as int)),
    decreases i,
{
    if i > 0 {
        let t = probes.drop_first();
        assert forall|k: int| 0 <= k < i - 1 implies t[k] == Some(true) by {
            assert(t[k] == probes[k + 1]);
        }
        lemma_passed_run_prefix(t, i - 1);
        assert(t.subrange(i - 1, t.len() as int) =~= probes.subrange(i, probes.len() as int));
    } else {
        assert(probes.subrange(0, probes.len() as int) =~= probes);
    }
}

/// Scroll-spy: which section is being read.
pub fn visible_section(at_bottom: bool, probes: &Vec<Option<bool>>) -> (r: SettingsSection)
    ensures
        r == visible_section_spec(at_bottom, probes@),
{
    let all = SettingsSection::all();
    if at_bottom {
        return SettingsSection::System;
    }
    let n: usize = if probes.len() < 10 {
        probes.len()
    } else {
        10
    };
    let ghost pv = leading_probes(probes@);
    let mut i: usize = 0;
    while i < n && probes[i] == Some(true)
        invariant
            n == pv.len(),
            pv == leading_probes(probes@),
            n <= probes.len(),
            forall|k: int| 0 <= k < n ==> pv[k] == probes@[k],
            i <= n,
            forall|k: int| 0 <= k < i ==> pv[k] == Some(true),
        decreases n - i,
    {
        i = i + 1;
    }
    proof {
        lemma_passed_run_prefix(pv, i as int);
        let rest = pv.subrange(i as int, n as int);
        if i < n {
            assert(rest[0] == pv[i as int]);
        } else {
            assert(rest.len() == 0);
        }
        assert(passed_run(rest) == 0);
        lemma_passed_run_bound(pv);
    }
    if i == 0 {
        SettingsSection::Site
    } else {
        all[i - 1]
    }
}

/// The navigation lock: the section a click scrolls to, and the click's
/// generation.
pub type SpyLock = Option<(SettingsSection, u32)>;

/// A scroll event. While locked, the spy waits for the target to be
/// reached (then unlocks) and leaves the highlight alone; unlocked, the
/// highlight follows the section being read.
pub fn spy_on_scroll(active: SettingsSection, lock: SpyLock, current: SettingsSection) -> (r: (
    SettingsSection,
    SpyLock,
))
    ensures
        lock matches Some((target, _)) ==> r.0 == active && r.1 == (if current == target {
            None
        } else {
            lock
        }),
        lock is None ==> r.0 == current && r.1 is None,
{
    match lock {
        Some((target, _)) => {
            if current == target {
                (active, None)
            } else {
                (active, lock)
            }
        },
        None => (current, None),
    }
}

/// A click on a section: it becomes active, and a new lock generation
/// (wrapping) holds the spy until the scroll arrives.
pub fn spy_on_click(section: SettingsSection, generation: u32) -> (r: (SettingsSection, u32, SpyLock))
    ensures
        r.0 == section,
        r.1 == (if generation == u32::MAX {
            0
        } else {
            generation + 1
        }),
        r.2 == Some((section, r.1)),
{
    let g = if generation == u32::MAX {
        0
    } else {
        generation + 1
    };
    (section, g, Some((section, g)))
}

/// The lock's timeout: it clears the lock only if no later click took it.
pub fn spy_lock_timeout(lock: SpyLock, generation: u32) -> (r: SpyLock)
    ensures
        (lock matches Some((_, g)) && g == generation) ==> r is None,
        !(lock matches Some((_, g)) && g == generation) ==> r == lock,
{
    match lock {
        Some((_, g)) => {
            if g == generation {
                None
            } else {
                lock
            }
        },
        None => None,
    }
}

/// A toast's timer ends: the toast closes only when it still shows the
/// message the timer was started for.
pub fn toast_should_close(current: &Option<(String, bool)>, key: &str) -> (r: bool)
    ensures
        r == (current matches Some((m, _)) && m@ == key@),
{
    match current {
        Some((m, _)) => str_eq(m.as_str(), key),
        None => false,
    }
}

/// A settings form's save button is disabled while loading, right after a
/// save, or without changes.
pub fn save_disabled(loading: bool, just_saved: bool, dirty: bool) -> (r: bool)
    ensures
        r == (loading || just_saved || !dirty),
{
    loading || just_saved || !dirty
}

/// A numeric box edits its field only when the text parses (`u32`).
pub fn apply_u32_input(current: u32, input: &str) -> (r: u32)
    ensures
        r == match spec_parse_u32(input@) {
            Some(n) => n,
            None => current,
        },
{
    match parse_u32(input) {
        Some(n) => n,
        None => current,
    }
}

/// A numeric box edits its field only when the text parses (`u64`).
pub fn apply_u64_input(current: u64, input: &str) -> (r: u64)
    ensures
        r == match spec_parse_u64(input@) {
            Some(n) => n,
            None => current,
        },
{
    match parse_u64(input) {
        Some(n) => n,
        None => current,
    }
}

/// A numeric box edits its field only when the text parses (`i32`).
pub fn apply_i32_input(current: i32, input: &str) -> (r: i32)
    ensures
        r == match spec_parse_i32(input@) {
            Some(n) => n,
            None => current,
        },
{
    match parse_i32(input) {
        Some(n) => n,
        None => current,
    }
}

/// The runner's language whitelist box: blank means "all languages".
pub fn languages_input(v: String) -> (r: Option<String>)
    ensures
        trim_seq(v@).len() == 0 ==> r is None,
        trim_seq(v@).len() > 0 ==> r == Some(v),
{
    let t = trim(v.as_str());
    if t.unicode_len() == 0 {
        None
    } else {
        Some(v)
    }
}

/// The trusted-proxy select: negative picks count as 0.
pub fn proxy_count_choice(v: i32) -> (r: u32)
    ensures
        r == (if v < 0 {
            0
        } else {
            v
        }),
{
    if v < 0 {
        0
    } else {
        v as u32
    }
}

/// The per-user session cap select: at least 1.
pub fn session_cap_choice(v: i32) -> (r: u32)
    ensures
        r == (if v < 1 {
            1
        } else {
            v
        }),
{
    if v < 1 {
        1
    } else {
        v as u32
    }
}

/// The site section's GitHub link has unsaved changes (the draft is
/// compared trimmed).
pub fn github_dirty(draft: &str, saved: &str) -> (r: bool)
    ensures
        r == (trim_seq(draft@) != saved@),
{
    let t = trim(draft);
    !str_eq(t.as_str(), saved)
}

/// The rate limits of every bucket.
#[derive(Clone, Copy, Debug, PartialEq, Eq, Structural)]
pub struct RateLimits {
    pub strict_per_sec: u32,
    pub strict_burst: u32,
    pub upload_per_sec: u32,
    pub upload_burst: u32,
    pub image_per_sec: u32,
    pub image_burst: u32,
    pub comment_per_sec: u32,
    pub comment_burst: u32,
    pub code_exec_per_sec: u32,
    pub code_exec_burst: u32,
    pub code_exec_daily: u32,
    pub unknown_per_sec: u32,
    pub unknown_burst: u32,
    pub gc_interval_secs: u32,
}

/// The rate-limit form has unsaved changes.
pub fn rate_limits_dirty(draft: &RateLimits, saved: &RateLimits) -> (r: bool)
    ensures
        r == (*draft != *saved),
{
    *draft != *saved
}

/// Rendering of a value in seconds, as the system section shows it.
pub fn seconds_text(n: i64) -> (r: String)
    ensures
        r@ == spec_int_text(n as int) + " 秒"@,
{
    let mut out = i64_text(n);
    out.append(" 秒");
    out
}

/// The compression row of the system section: `off` when none is set.
pub fn compression_text(algorithms: &str) -> (r: String)
    ensures
        algorithms@.len() == 0 ==> r@ == "off"@,
        algorithms@.len() > 0 ==> r@ == algorithms@,
{
    if algorithms.unicode_len() == 0 {
        String::from_str("off")
    } else {
        String::from_str(algorithms)
    }
}

/// An on/off row of the system section.
pub fn on_off_text(on: bool) -> (r: &'static str)
    ensures
        on ==> r@ == "开启"@,
        !on ==> r@ == "关闭"@,
{
    if on {
        "开启"
    } else {
        "关闭"
    }
}

/// The key row of the system section.
pub fn key_set_text(set: bool) -> (r: &'static str)
    ensures
        set ==> r@ == "已设置"@,
        !set ==> r@ == "未设置"@,
{
    if set {
        "已设置"
    } else {
        "未设置"
    }
}

} // verus!
