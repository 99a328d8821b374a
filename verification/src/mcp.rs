//! The MCP server page: token status and row texts, the shared page state
//! (list reloads, the one-time plaintext dialog, the revealed token, the
//! token used for client configuration, the toast), the create form, and
//! the configuration card's fetches.

use vstd::prelude::*;

use crate::dates::{in_range, utc_format, utc_text};
use crate::text::{trim, trim_seq};

verus! {

/// What a token may do.
#[derive(Clone, Copy, Debug, PartialEq, Eq, Structural)]
pub enum TokenScope {
    Read,
    Write,
    Admin,
}

/// The scope's name in the table.
pub fn scope_name(s: TokenScope) -> (r: &'static str)
    ensures
        s == TokenScope::Read ==> r@ == "read"@,
        s == TokenScope::Write ==> r@ == "write"@,
        s == TokenScope::Admin ==> r@ == "admin"@,
{
    match s {
        TokenScope::Read => "read",
        TokenScope::Write => "write",
        TokenScope::Admin => "admin",
    }
}

/// The scope select's option text.
pub fn scope_option(s: TokenScope) -> (r: &'static str)
    ensures
        s == TokenScope::Read ==> r@ == "read — 仅查询已发布文章"@,
        s == TokenScope::Write ==> r@ == "write — read + 文章/评论/标签/媒体 CRUD"@,
        s == TokenScope::Admin ==> r@ == "admin — write + 站点设置 / 代码运行器"@,
{
    match s {
        TokenScope::Read => "read — 仅查询已发布文章",
        TokenScope::Write => "write — read + 文章/评论/标签/媒体 CRUD",
        TokenScope::Admin => "admin — write + 站点设置 / 代码运行器",
    }
}

/// How long a new token lives.
#[derive(Clone, Copy, Debug, PartialEq, Eq, Structural)]
pub enum TokenLifetime {
    Days1,
    Days7,
    Days30,
    Days90,
    Never,
}

/// The lifetime select's option text.
pub fn lifetime_option(l: TokenLifetime) -> (r: &'static str)
    ensures
        l == TokenLifetime::Days1 ==> r@ == "1 天"@,
        l == TokenLifetime::Days7 ==> r@ == "7 天"@,
        l == TokenLifetime::Days30 ==> r@ == "30 天"@,
        l == TokenLifetime::Days90 ==> r@ == "90 天"@,
        l == TokenLifetime::Never ==> r@ == "永不过期"@,
{
    match l {
        TokenLifetime::Days1 => "1 天",
        TokenLifetime::Days7 => "7 天",
        TokenLifetime::Days30 => "30 天",
        TokenLifetime::Days90 => "90 天",
        TokenLifetime::Never => "永不过期",
    }
}

/// An instant at full precision: whole seconds since the epoch (UTC) and
/// the nanoseconds past them.
#[derive(Clone, Copy, Debug, PartialEq, Eq, Structural)]
pub struct Stamp {
    pub secs: i64,
    pub nanos: u32,
}

/// `a` lies strictly before `b`.
pub open spec fn stamp_before(a: Stamp, b: Stamp) -> bool {
    a.secs < b.secs || (a.secs == b.secs && a.nanos < b.nanos)
}

/// Whether `a` lies strictly before `b`.
pub fn before(a: Stamp, b: Stamp) -> (r: bool)
    ensures
        r == stamp_before(a, b),
{
    a.secs < b.secs || (a.secs == b.secs && a.nanos < b.nanos)
}

/// A token as the list shows it. Creation and last use are seconds since
/// the epoch (UTC), which is all their day and minute texts need; the
/// expiry keeps its sub-second part, since it is compared with the clock.
pub struct TokenSummary {
    pub id: String,
    pub name: String,
    pub scope: TokenScope,
    pub created_at: i64,
    pub expires_at: Option<Stamp>,
    pub last_used_at: Option<i64>,
    pub revoked_at: Option<i64>,
}

/// A token's state.
#[derive(Clone, Copy, Debug, PartialEq, Eq, Structural)]
pub enum TokenStatus {
    Revoked,
    Expired,
    Active,
}

/// A token's state at `now`: revoked first, then expired (its expiry
/// lies before now), else active.
pub open spec fn token_status_spec(t: TokenSummary, now: Stamp) -> TokenStatus {
    if t.revoked_at is Some {
        TokenStatus::Revoked
    } else if (t.expires_at matches Some(e) && stamp_before(e, now)) {
        TokenStatus::Expired
    } else {
        TokenStatus::Active
    }
}

/// A token's state at `now`.
pub fn token_status(t: &TokenSummary, now: Stamp) -> (r: TokenStatus)
    ensures
        r == token_status_spec(*t, now),
{
    if t.revoked_at.is_some() {
        TokenStatus::Revoked
    } else {
        match t.expires_at {
            Some(e) => if before(e, now) {
                TokenStatus::Expired
            } else {
                TokenStatus::Active
            },
            None => TokenStatus::Active,
        }
    }
}

/// Revocation wins: a revoked token is shown revoked at every moment,
/// whatever its expiry. A token that is not revoked is expired exactly
/// when it has an expiry lying strictly before now; one without an
/// expiry stays active forever.
pub proof fn lemma_revoked_wins(t: TokenSummary, now: Stamp)
    ensures
        t.revoked_at is Some ==> token_status_spec(t, now) == TokenStatus::Revoked,
        t.revoked_at is None ==> (token_status_spec(t, now) == TokenStatus::Expired <==> (
        t.expires_at matches Some(e) && (e.secs < now.secs || (e.secs == now.secs && e.nanos
            < now.nanos)))),
        t.revoked_at is None && t.expires_at is None ==> token_status_spec(t, now)
            == TokenStatus::Active,
        token_status_spec(t, now) != TokenStatus::Revoked ==> t.revoked_at is None,
{
}

/// The status badge text.
pub fn status_label(s: TokenStatus) -> (r: &'static str)
    ensures
        s == TokenStatus::Revoked ==> r@ == "已撤销"@,
        s == TokenStatus::Expired ==> r@ == "已过期"@,
        s == TokenStatus::Active ==> r@ == "有效"@,
{
    match s {
        TokenStatus::Revoked => "已撤销",
        TokenStatus::Expired => "已过期",
        TokenStatus::Active => "有效",
    }
}

/// The row's date texts.
pub struct TokenDates {
    pub created: String,
    pub expires: String,
    pub last_used: String,
}

/// The row's dates: creation day; expiry day or "永不过期"; last use to
/// the minute or "—". `None` only when a timestamp is beyond what chrono
/// represents.
pub fn token_dates(t: &TokenSummary) -> (r: Option<TokenDates>)
    ensures
        r matches Some(d) ==> {
            &&& d.created@ == utc_format(t.created_at as int, "%Y-%m-%d"@)
            &&& (match t.expires_at {
                Some(e) => d.expires@ == utc_format(e.secs as int, "%Y-%m-%d"@),
                None => d.expires@ == "永不过期"@,
            })
            &&& (match t.last_used_at {
                Some(u) => d.last_used@ == utc_format(u as int, "%Y-%m-%d %H:%M"@),
                None => d.last_used@ == "—"@,
            })
        },
        in_range(t.created_at as int) && (t.expires_at matches Some(e) ==> in_range(e.secs as int)) && (
        t.last_used_at matches Some(u) ==> in_range(u as int)) ==> r is Some,
{
    let created = match utc_text(t.created_at, "%Y-%m-%d") {
        Some(c) => c,
        None => {
            return None;
        },
    };
    let expires = match t.expires_at {
        Some(e) => match utc_text(e.secs, "%Y-%m-%d") {
            Some(x) => x,
            None => {
                return None;
            },
        },
        None => String::from_str("永不过期"),
    };
    let last_used = match t.last_used_at {
        Some(u) => match utc_text(u, "%Y-%m-%d %H:%M") {
            Some(x) => x,
            None => {
                return None;
            },
        },
        None => String::from_str("—"),
    };
    Some(TokenDates { created, expires, last_used })
}

/// The staggered entry delay of the `i`-th token row, 40 ms apart.
pub fn token_row_delay(i: u32) -> (r: u32)
    requires
        i * 40 <= u32::MAX,
    ensures
        r == i * 40,
{
    i * 40
}

/// The page's shared state.
pub struct McpPage {
    pub reload_gen: u32,
    /// The plaintext of a token just created, shown once.
    pub created_plaintext: Option<String>,
    /// A revealed token: (id, plaintext).
    pub revealed: Option<(String, String)>,
    /// The token the configuration card uses.
    pub config_token: Option<String>,
    pub toast: Option<(String, bool)>,
}

/// An error toast: a prefix and the error.
pub open spec fn error_toast(t: Option<(String, bool)>, prefix: Seq<char>, e: Seq<char>) -> bool {
    t matches Some((m, true)) && m@ == prefix + e
}

/// An information toast with the given text.
pub open spec fn info_toast(t: Option<(String, bool)>, text: Seq<char>) -> bool {
    t matches Some((m, false)) && m@ == text
}

fn with_prefix(prefix: &str, e: &str) -> (r: String)
    ensures
        r@ == prefix@ + e@,
{
    let mut m = String::from_str(prefix);
    m.append(e);
    m
}

impl McpPage {
    /// The page as it opens.
    pub fn new() -> (r: McpPage)
        ensures
            r.reload_gen == 0,
            r.created_plaintext is None && r.revealed is None && r.config_token is None,
            r.toast is None,
    {
        McpPage { reload_gen: 0, created_plaintext: None, revealed: None, config_token: None, toast: None }
    }

    /// "刷新" (and every change that reloads the list).
    pub fn refresh(&mut self)
        requires
            old(self).reload_gen < u32::MAX,
        ensures
            final(self).reload_gen == old(self).reload_gen + 1,
            final(self).created_plaintext == old(self).created_plaintext,
            final(self).revealed == old(self).revealed,
            final(self).config_token == old(self).config_token,
            final(self).toast == old(self).toast,
    {
        self.reload_gen = self.reload_gen + 1;
    }

    /// The list failed to load.
    pub fn list_failed(&mut self, e: &str)
        ensures
            error_toast(final(self).toast, "加载失败："@, e@),
            final(self).reload_gen == old(self).reload_gen,
            final(self).config_token == old(self).config_token,
    {
        self.toast = Some((with_prefix("加载失败：", e), true));
    }

    /// A token was created: its plaintext is shown once and the list
    /// reloads.
    pub fn created(&mut self, plaintext: String)
        requires
            old(self).reload_gen < u32::MAX,
        ensures
            final(self).created_plaintext == Some(plaintext),
            final(self).reload_gen == old(self).reload_gen + 1,
            final(self).revealed == old(self).revealed,
            final(self).config_token == old(self).config_token,
            final(self).toast == old(self).toast,
    {
        self.created_plaintext = Some(plaintext);
        self.reload_gen = self.reload_gen + 1;
    }

    /// Creating failed.
    pub fn create_failed(&mut self, e: &str)
        ensures
            error_toast(final(self).toast, "创建失败："@, e@),
            final(self).created_plaintext == old(self).created_plaintext,
            final(self).reload_gen == old(self).reload_gen,
    {
        self.toast = Some((with_prefix("创建失败：", e), true));
    }

    /// "用于配置" in the one-time dialog: that token configures the
    /// clients and the dialog closes.
    pub fn use_created_for_config(&mut self)
        ensures
            old(self).created_plaintext is Some ==> final(self).config_token
                == old(self).created_plaintext && final(self).created_plaintext is None && info_toast(
                final(self).toast,
                "已选为配置令牌"@,
            ),
            old(self).created_plaintext is None ==> *final(self) == *old(self),
            final(self).revealed == old(self).revealed,
            final(self).reload_gen == old(self).reload_gen,
    {
        match self.created_plaintext.take() {
            Some(p) => {
                self.config_token = Some(p);
                self.toast = Some((String::from_str("已选为配置令牌"), false));
            },
            None => {},
        }
    }

    /// Closing the one-time dialog.
    pub fn close_created(&mut self)
        ensures
            final(self).created_plaintext is None,
            final(self).revealed == old(self).revealed,
            final(self).config_token == old(self).config_token,
            final(self).toast == old(self).toast,
            final(self).reload_gen == old(self).reload_gen,
    {
        self.created_plaintext = None;
    }

    /// "用于配置" in the reveal dialog.
    pub fn use_revealed_for_config(&mut self)
        ensures
            (old(self).revealed matches Some((_, p)) ==> final(self).config_token == Some(p)
                && final(self).revealed is None && info_toast(final(self).toast, "已选为配置令牌"@)),
            old(self).revealed is None ==> *final(self) == *old(self),
            final(self).created_plaintext == old(self).created_plaintext,
            final(self).reload_gen == old(self).reload_gen,
    {
        match self.revealed.take() {
            Some((_, p)) => {
                self.config_token = Some(p);
                self.toast = Some((String::from_str("已选为配置令牌"), false));
            },
            None => {},
        }
    }

    /// Closing the reveal dialog.
    pub fn close_revealed(&mut self)
        ensures
            final(self).revealed is None,
            final(self).created_plaintext == old(self).created_plaintext,
            final(self).config_token == old(self).config_token,
            final(self).toast == old(self).toast,
            final(self).reload_gen == old(self).reload_gen,
    {
        self.revealed = None;
    }

    /// "重新查看" answered for token `id`.
    pub fn reveal_answered(&mut self, id: String, answer: Result<Option<String>, String>)
        ensures
            answer matches Ok(Some(p)) ==> final(self).revealed == Some((id, p)) && final(self).toast
                == old(self).toast,
            answer matches Ok(None) ==> error_toast(final(self).toast, "无法解密该令牌"@, Seq::empty())
                && final(self).revealed == old(self).revealed,
            answer matches Err(e) ==> error_toast(final(self).toast, "重查失败："@, e@)
                && final(self).revealed == old(self).revealed,
            final(self).config_token == old(self).config_token,
            final(self).created_plaintext == old(self).created_plaintext,
            final(self).reload_gen == old(self).reload_gen,
    {
        match answer {
            Ok(Some(p)) => {
                self.revealed = Some((id, p));
            },
            Ok(None) => {
                self.toast = Some((String::from_str("无法解密该令牌"), true));
                proof {
                    assert("无法解密该令牌"@ =~= "无法解密该令牌"@ + Seq::<char>::empty());
                }
            },
            Err(e) => {
                self.toast = Some((with_prefix("重查失败：", e.as_str()), true));
            },
        }
    }

    /// A row's "用于配置" answered.
    pub fn config_reveal_answered(&mut self, answer: Result<Option<String>, String>)
        ensures
            answer matches Ok(Some(p)) ==> final(self).config_token == Some(p) && info_toast(
                final(self).toast,
                "已选为配置令牌"@,
            ),
            answer matches Ok(None) ==> error_toast(final(self).toast, "无法解密该令牌"@, Seq::empty())
                && final(self).config_token == old(self).config_token,
            answer matches Err(e) ==> error_toast(final(self).toast, "重查失败："@, e@)
                && final(self).config_token == old(self).config_token,
            final(self).revealed == old(self).revealed,
            final(self).created_plaintext == old(self).created_plaintext,
            final(self).reload_gen == old(self).reload_gen,
    {
        match answer {
            Ok(Some(p)) => {
                self.config_token = Some(p);
                self.toast = Some((String::from_str("已选为配置令牌"), false));
            },
            Ok(None) => {
                self.toast = Some((String::from_str("无法解密该令牌"), true));
                proof {
                    assert("无法解密该令牌"@ =~= "无法解密该令牌"@ + Seq::<char>::empty());
                }
            },
            Err(e) => {
                self.toast = Some((with_prefix("重查失败：", e.as_str()), true));
            },
        }
    }

    /// "撤销" answered: success reloads the list.
    pub fn revoke_answered(&mut self, answer: Result<(), String>)
        requires
            answer is Ok ==> old(self).reload_gen < u32::MAX,
        ensures
            answer is Ok ==> info_toast(final(self).toast, "已撤销"@) && final(self).reload_gen
                == old(self).reload_gen + 1,
            answer matches Err(e) ==> error_toast(final(self).toast, "撤销失败："@, e@)
                && final(self).reload_gen == old(self).reload_gen,
            final(self).config_token == old(self).config_token,
            final(self).revealed == old(self).revealed,
            final(self).created_plaintext == old(self).created_plaintext,
    {
        match answer {
            Ok(()) => {
                self.toast = Some((String::from_str("已撤销"), false));
                self.reload_gen = self.reload_gen + 1;
            },
            Err(e) => {
                self.toast = Some((with_prefix("撤销失败：", e.as_str()), true));
            },
        }
    }
}

/// The create form's request: ignored while creating or with a blank
/// name; else the trimmed name.
pub fn create_request(busy: bool, name: &str) -> (r: Option<String>)
    ensures
        busy || trim_seq(name@).len() == 0 ==> r is None,
        !busy && trim_seq(name@).len() > 0 ==> (r matches Some(n) && n@ == trim_seq(name@)),
{
    if busy {
        return None;
    }
    let n = trim(name);
    if n.unicode_len() == 0 {
        None
    } else {
        Some(n)
    }
}

/// The create button's label.
pub fn create_label(busy: bool) -> (r: &'static str)
    ensures
        busy ==> r@ == "创建中…"@,
        !busy ==> r@ == "创建令牌"@,
{
    if busy {
        "创建中…"
    } else {
        "创建令牌"
    }
}

/// A client configuration snippet.
pub struct ConfigSnippet {
    pub title: String,
    pub content: String,
    pub content_html: String,
}

/// The configuration card.
pub struct ConfigCard {
    pub manual_token: String,
    pub configs: Option<Vec<ConfigSnippet>>,
    pub loading: bool,
}

/// What the configuration card shows.
#[derive(Clone, Copy, Debug, PartialEq, Eq, Structural)]
pub enum ConfigBody {
    Skeleton,
    Snippets,
    Hint,
}

impl ConfigCard {
    /// Empty token box, nothing generated.
    pub fn new() -> (r: ConfigCard)
        ensures
            r.manual_token@.len() == 0,
            r.configs is None,
            !r.loading,
    {
        ConfigCard { manual_token: String::new(), configs: None, loading: false }
    }

    /// The configuration token changed: the box shows it and its snippets
    /// are requested (the token returned is the one to send).
    pub fn token_chosen(&mut self, token: String) -> (send: String)
        ensures
            send == token,
            final(self).manual_token == token,
            final(self).loading,
            final(self).configs == old(self).configs,
    {
        self.loading = true;
        self.manual_token = token.clone();
        token
    }

    /// Typing or pasting in the token box: a blank box drops the snippets;
    /// otherwise, unless a request is already running, the text (as typed)
    /// is sent.
    pub fn manual_input(&mut self, v: String) -> (send: Option<String>)
        ensures
            final(self).manual_token == v,
            trim_seq(v@).len() == 0 ==> send is None && final(self).configs is None
                && final(self).loading == old(self).loading,
            trim_seq(v@).len() > 0 && old(self).loading ==> send is None && final(self).configs
                == old(self).configs && final(self).loading,
            trim_seq(v@).len() > 0 && !old(self).loading ==> send == Some(v) && final(self).loading
                && final(self).configs == old(self).configs,
    {
        let t = trim(v.as_str());
        self.manual_token = v.clone();
        if t.unicode_len() == 0 {
            self.configs = None;
            return None;
        }
        if self.loading {
            return None;
        }
        self.loading = true;
        Some(v)
    }

    /// The snippets answered (the page's toast takes the error text, which
    /// is returned).
    pub fn configs_answered(&mut self, answer: Result<Vec<ConfigSnippet>, String>) -> (err: Option<String>)
        ensures
            !final(self).loading,
            final(self).manual_token == old(self).manual_token,
            answer matches Ok(c) ==> final(self).configs == Some(c) && err is None,
            answer matches Err(e) ==> final(self).configs == old(self).configs && (err matches Some(m)
                && m@ == "配置生成失败："@ + e@),
    {
        let r = match answer {
            Ok(c) => {
                self.configs = Some(c);
                None
            },
            Err(e) => Some(with_prefix("配置生成失败：", e.as_str())),
        };
        self.loading = false;
        r
    }

    /// The card's body: the skeleton while generating; the snippets; else
    /// the hint to paste a token.
    pub fn body(&self) -> (r: ConfigBody)
        ensures
            self.loading ==> r == ConfigBody::Skeleton,
            !self.loading && self.configs is Some ==> r == ConfigBody::Snippets,
            !self.loading && self.configs is None ==> r == ConfigBody::Hint,
    {
        if self.loading {
            ConfigBody::Skeleton
        } else if self.configs.is_some() {
            ConfigBody::Snippets
        } else {
            ConfigBody::Hint
        }
    }
}

/// A snippet's copy button: "已复制" while the feedback lasts.
pub fn copy_label(copied: bool) -> (r: &'static str)
    ensures
        copied ==> r@ == "已复制"@,
        !copied ==> r@ == "复制"@,
{
    if copied {
        "已复制"
    } else {
        "复制"
    }
}

/// The toast after copying a snippet.
pub fn copied_toast(title: &str) -> (r: String)
    ensures
        r@ == "已复制："@ + title@,
{
    with_prefix("已复制：", title)
}

} // verus!
