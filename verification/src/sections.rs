//! The settings sections' forms: the load/save cycle they share, and each
//! section's drafts, what counts as an unsaved change, and how its inputs
//! edit them.

use vstd::prelude::*;

use crate::profile::SaveHint;
use crate::text::{i64_text, spec_int_text, str_eq};

verus! {

/// The load/save cycle of a settings form.
pub struct SaveCycle {
    pub loading: bool,
    pub saving: bool,
    /// Just saved; cleared by the next edit.
    pub just_saved: bool,
}

impl SaveCycle {
    /// Loading, nothing saved yet.
    pub fn new() -> (r: SaveCycle)
        ensures
            r.loading && !r.saving && !r.just_saved,
    {
        SaveCycle { loading: true, saving: false, just_saved: false }
    }

    /// The load answered (either way).
    pub fn load_done(&mut self)
        ensures
            !final(self).loading,
            final(self).saving == old(self).saving,
            final(self).just_saved == old(self).just_saved,
    {
        self.loading = false;
    }

    /// A draft was edited.
    pub fn edited(&mut self)
        ensures
            !final(self).just_saved,
            final(self).loading == old(self).loading,
            final(self).saving == old(self).saving,
    {
        self.just_saved = false;
    }

    /// "保存设置" clicked.
    pub fn save_started(&mut self)
        ensures
            final(self).saving,
            final(self).loading == old(self).loading,
            final(self).just_saved == old(self).just_saved,
    {
        self.saving = true;
    }

    /// The save answered: a success marks the form saved.
    pub fn save_done(&mut self, ok: bool)
        ensures
            !final(self).saving,
            ok ==> final(self).just_saved,
            !ok ==> final(self).just_saved == old(self).just_saved,
            final(self).loading == old(self).loading,
    {
        self.saving = false;
        if ok {
            self.just_saved = true;
        }
    }

    /// The save button is disabled while loading, right after a save, and
    /// without changes.
    pub fn save_disabled(&self, dirty: bool) -> (r: bool)
        ensures
            r == (self.loading || self.just_saved || !dirty),
    {
        crate::settings::save_disabled(self.loading, self.just_saved, dirty)
    }

    /// The hint beside the save button.
    pub fn hint(&self, dirty: bool) -> (r: SaveHint)
        ensures
            self.just_saved ==> r == SaveHint::Saved,
            !self.just_saved && dirty ==> r == SaveHint::Unsaved,
            !self.just_saved && !dirty ==> r == SaveHint::Blank,
    {
        crate::profile::save_hint(self.just_saved, dirty)
    }
}

/// The "saved" hint: sections whose values are read at start-up add that a
/// restart applies them.
pub fn saved_hint_text(needs_restart: bool) -> (r: &'static str)
    ensures
        needs_restart ==> r@ == "已保存（重启后生效）"@,
        !needs_restart ==> r@ == "已保存"@,
{
    if needs_restart {
        "已保存（重启后生效）"
    } else {
        "已保存"
    }
}

/// What a section's load failure says (most sections use `加载失败：`; the
/// image section names its two loads).
pub fn load_failed_text(prefix: &str, err: &str) -> (r: String)
    ensures
        r@ == prefix@ + "加载失败："@ + err@,
{
    let mut out = String::from_str(prefix);
    out.append("加载失败：");
    out.append(err);
    out
}

/// What a failed save says.
pub fn save_failed_text(err: &str) -> (r: String)
    ensures
        r@ == "保存失败："@ + err@,
{
    let mut out = String::from_str("保存失败：");
    out.append(err);
    out
}

// ---------------------------------------------------------------------
// Site section.

/// The "当前：" line of the site section.
pub fn github_current(saved_url: &str) -> (r: String)
    ensures
        saved_url@.len() == 0 ==> r@ == "未配置（不展示图标）"@,
        saved_url@.len() > 0 ==> r@ == saved_url@,
{
    if saved_url.unicode_len() == 0 {
        String::from_str("未配置（不展示图标）")
    } else {
        String::from_str(saved_url)
    }
}

// ---------------------------------------------------------------------
// Security section.

/// The security settings.
pub struct SecuritySettings {
    pub app_base_url: String,
    pub cookie_secure: bool,
    pub trusted_proxy_count: u32,
    pub max_sessions_per_user: u32,
}

/// The security form differs from the saved settings in any field.
pub fn security_dirty(d: &SecuritySettings, s: &SecuritySettings) -> (r: bool)
    ensures
        r == (d.app_base_url@ != s.app_base_url@ || d.cookie_secure != s.cookie_secure
            || d.trusted_proxy_count != s.trusted_proxy_count || d.max_sessions_per_user
            != s.max_sessions_per_user),
{
    !str_eq(d.app_base_url.as_str(), s.app_base_url.as_str()) || d.cookie_secure != s.cookie_secure
        || d.trusted_proxy_count != s.trusted_proxy_count || d.max_sessions_per_user
        != s.max_sessions_per_user
}

/// The trusted-proxy select's options.
pub fn proxy_options() -> (r: Vec<(i32, &'static str)>)
    ensures
        r@.len() == 6,
        forall|i: int| 0 <= i < 6 ==> (#[trigger] r@[i]).0 == i,
        r@[0].1@ == "0（直接对外服务）"@,
        r@[1].1@ == "1（一层代理，如 nginx/Caddy）"@,
        r@[2].1@ == "2（两层代理）"@,
        r@[3].1@ == "3"@,
        r@[4].1@ == "4"@,
        r@[5].1@ == "5"@,
{
    vec![
        (0, "0（直接对外服务）"),
        (1, "1（一层代理，如 nginx/Caddy）"),
        (2, "2（两层代理）"),
        (3, "3"),
        (4, "4"),
        (5, "5"),
    ]
}

/// The session-cap select's options.
pub fn session_options() -> (r: Vec<(i32, &'static str)>)
    ensures
        r@.len() == 6,
        r@[0].0 == 1 && r@[0].1@ == "1（仅单设备登录）"@,
        r@[1].0 == 3 && r@[1].1@ == "3"@,
        r@[2].0 == 5 && r@[2].1@ == "5（默认）"@,
        r@[3].0 == 10 && r@[3].1@ == "10"@,
        r@[4].0 == 20 && r@[4].1@ == "20"@,
        r@[5].0 == 50 && r@[5].1@ == "50"@,
{
    vec![(1, "1（仅单设备登录）"), (3, "3"), (5, "5（默认）"), (10, "10"), (20, "20"), (50, "50")]
}

// ---------------------------------------------------------------------
// Image cache section.

/// The image disk cache limits.
#[derive(Clone, Copy, Debug, PartialEq, Eq, Structural)]
pub struct CacheLimits {
    pub max_mb: u32,
    pub max_age_hours: u32,
}

/// The cache form differs from the saved limits.
pub fn cache_dirty(d: CacheLimits, s: CacheLimits) -> (r: bool)
    ensures
        r == (d.max_mb != s.max_mb || d.max_age_hours != s.max_age_hours),
{
    d.max_mb != s.max_mb || d.max_age_hours != s.max_age_hours
}

/// The rate-limit fields' labels, in display order.
pub fn limiter_labels() -> (r: Vec<&'static str>)
    ensures
        r@.len() == 6,
        r@[0]@ == "严格限流（登录/注册）"@,
        r@[1]@ == "上传限流（图片上传）"@,
        r@[2]@ == "图片访问限流（GET /uploads/*）"@,
        r@[3]@ == "评论限流（创建评论）"@,
        r@[4]@ == "代码执行限流"@,
        r@[5]@ == "unknown 桶（无法识别 IP）"@,
{
    vec![
        "严格限流（登录/注册）",
        "上传限流（图片上传）",
        "图片访问限流（GET /uploads/*）",
        "评论限流（创建评论）",
        "代码执行限流",
        "unknown 桶（无法识别 IP）",
    ]
}

// ---------------------------------------------------------------------
// Image section (the size limits; the WebP quality is a float and is
// compared by the page).

/// The image size limits.
#[derive(Clone, Copy, Debug, PartialEq, Eq, Structural)]
pub struct ImageLimits {
    pub max_dimension: u32,
    pub max_pixels: u64,
    pub dimensions_cache_ttl_secs: u64,
}

/// The size-limit form differs from the saved limits.
pub fn image_limits_dirty(d: ImageLimits, s: ImageLimits) -> (r: bool)
    ensures
        r == (d.max_dimension != s.max_dimension || d.max_pixels != s.max_pixels
            || d.dimensions_cache_ttl_secs != s.dimensions_cache_ttl_secs),
{
    d.max_dimension != s.max_dimension || d.max_pixels != s.max_pixels || d.dimensions_cache_ttl_secs
        != s.dimensions_cache_ttl_secs
}

/// The WebP form differs: its quality (compared by the page, a float) or
/// its method.
pub fn webp_dirty(quality_differs: bool, draft_method: u32, saved_method: u32) -> (r: bool)
    ensures
        r == (quality_differs || draft_method != saved_method),
{
    quality_differs || draft_method != saved_method
}

// ---------------------------------------------------------------------
// Runner section (the CPU cores are a float and are compared by the page).

/// The runner limits other than the CPU cores.
pub struct RunnerLimits {
    pub allow_network: bool,
    pub max_concurrent: u32,
    pub max_memory_mb: u32,
    pub max_timeout_secs: u32,
    pub max_output_bytes: u64,
    pub max_source_bytes: u64,
    pub queue_timeout_secs: u32,
    pub task_ttl_secs: u32,
    pub languages: Option<String>,
}

/// The view of an optional string.
pub open spec fn opt_view(s: Option<String>) -> Option<Seq<char>> {
    match s {
        Some(t) => Some(t@),
        None => None,
    }
}

/// The runner form differs from the saved limits.
pub fn runner_dirty(d: &RunnerLimits, s: &RunnerLimits, cpu_differs: bool) -> (r: bool)
    ensures
        r == (cpu_differs || d.allow_network != s.allow_network || d.max_concurrent != s.max_concurrent
            || d.max_memory_mb != s.max_memory_mb || d.max_timeout_secs != s.max_timeout_secs
            || d.max_output_bytes != s.max_output_bytes || d.max_source_bytes != s.max_source_bytes
            || d.queue_timeout_secs != s.queue_timeout_secs || d.task_ttl_secs != s.task_ttl_secs
            || opt_view(d.languages) != opt_view(s.languages)),
{
    let langs_same = match (&d.languages, &s.languages) {
        (Some(a), Some(b)) => str_eq(a.as_str(), b.as_str()),
        (None, None) => true,
        _ => false,
    };
    cpu_differs || d.allow_network != s.allow_network || d.max_concurrent != s.max_concurrent
        || d.max_memory_mb != s.max_memory_mb || d.max_timeout_secs != s.max_timeout_secs
        || d.max_output_bytes != s.max_output_bytes || d.max_source_bytes != s.max_source_bytes
        || d.queue_timeout_secs != s.queue_timeout_secs || d.task_ttl_secs != s.task_ttl_secs
        || !langs_same
}

/// The network checkbox's change event value: checked is `"true"`.
pub fn checkbox_checked(value: &str) -> (r: bool)
    ensures
        r == (value@ == "true"@),
{
    str_eq(value, "true")
}

/// The language whitelist box's text: the list, or empty for "all".
pub fn languages_box(languages: &Option<String>) -> (r: String)
    ensures
        r@ == match *languages {
            Some(l) => l@,
            None => Seq::empty(),
        },
{
    match languages {
        Some(l) => l.clone(),
        None => String::new(),
    }
}

// ---------------------------------------------------------------------
// Backup section (times are edited in the browser's local time, which the
// page converts).

/// The backup schedule drafts (the time as local `HH:MM`).
pub struct BackupDraft {
    pub auto_enabled: bool,
    pub time_local: String,
    pub retention_count: i32,
    pub include_uploads: bool,
}

/// The backup form differs from the saved schedule (its time shown in
/// local time).
pub fn backup_dirty(d: &BackupDraft, saved: &BackupDraft) -> (r: bool)
    ensures
        r == (d.auto_enabled != saved.auto_enabled || d.time_local@ != saved.time_local@
            || d.retention_count != saved.retention_count || d.include_uploads != saved.include_uploads),
{
    d.auto_enabled != saved.auto_enabled || !str_eq(d.time_local.as_str(), saved.time_local.as_str())
        || d.retention_count != saved.retention_count || d.include_uploads != saved.include_uploads
}

// ---------------------------------------------------------------------
// Trash and upload sections.

/// The trash section's form differs from the saved settings.
pub fn trash_section_dirty(enabled: bool, days: i32, saved_enabled: bool, saved_days: i32) -> (r: bool)
    ensures
        r == (enabled != saved_enabled || days != saved_days),
{
    enabled != saved_enabled || days != saved_days
}

/// The upload concurrency select's options: 1 to 8.
pub fn concurrency_options() -> (r: Vec<(i32, &'static str)>)
    ensures
        r@.len() == 8,
        forall|i: int| 0 <= i < 8 ==> (#[trigger] r@[i]).0 == i + 1,
        r@[0].1@ == "1（顺序上传）"@,
        r@[2].1@ == "3（默认）"@,
{
    vec![(1, "1（顺序上传）"), (2, "2"), (3, "3（默认）"), (4, "4"), (5, "5"), (6, "6"), (7, "7"), (8, "8")]
}

/// The upload card's "当前：" value.
pub fn concurrency_current(n: i32) -> (r: String)
    ensures
        r@ == spec_int_text(n as int) + " 路并发"@,
{
    let mut out = i64_text(n as i64);
    out.append(" 路并发");
    out
}

// ---------------------------------------------------------------------
// System section.

/// What the read-only system section shows.
#[derive(Clone, Copy, Debug, PartialEq, Eq, Structural)]
pub enum SystemView {
    /// "加载中…".
    Loading,
    /// The rows.
    Rows,
    /// "无法加载系统信息".
    Unavailable,
}

/// The system section: loading; the rows once the info arrived; else the
/// failure note.
pub fn system_view(loading: bool, has_info: bool) -> (r: SystemView)
    ensures
        loading ==> r == SystemView::Loading,
        !loading && has_info ==> r == SystemView::Rows,
        !loading && !has_info ==> r == SystemView::Unavailable,
{
    if loading {
        SystemView::Loading
    } else if has_info {
        SystemView::Rows
    } else {
        SystemView::Unavailable
    }
}

} // verus!
