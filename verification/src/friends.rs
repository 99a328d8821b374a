//! The friend-links admin page: the create/edit form (seeding, clearing,
//! validation, what a save sends and what its answer does), the list's
//! reloads, and the rows' texts.

use vstd::prelude::*;

use crate::text::{i64_text, lemma_int_text_parses, parse_i32, spec_decimal, spec_int_text, spec_parse_i32, trim, trim_seq, u64_text};

verus! {

/// A friend link as the server keeps it.
pub struct FriendLink {
    pub id: i64,
    pub name: String,
    pub url: String,
    pub avatar_url: Option<String>,
    pub description: String,
    pub sort_order: i32,
    pub is_active: bool,
}

/// The form's drafts.
pub struct FriendDraft {
    pub name: String,
    pub url: String,
    pub avatar: String,
    pub description: String,
    pub sort: String,
    pub is_active: bool,
    /// The avatar preview failed to load (the initial shows instead).
    pub avatar_failed: bool,
}

/// The text of an optional string (`unwrap_or_default`).
pub open spec fn or_empty(s: Option<String>) -> Seq<char> {
    match s {
        Some(t) => t@,
        None => Seq::empty(),
    }
}

impl FriendDraft {
    /// The empty form: sort "0", active.
    pub fn empty() -> (r: FriendDraft)
        ensures
            r.name@.len() == 0 && r.url@.len() == 0 && r.avatar@.len() == 0,
            r.description@.len() == 0,
            r.sort@ == "0"@,
            r.is_active,
            !r.avatar_failed,
    {
        FriendDraft {
            name: String::new(),
            url: String::new(),
            avatar: String::new(),
            description: String::new(),
            sort: String::from_str("0"),
            is_active: true,
            avatar_failed: false,
        }
    }

    /// The drafts an edited link seeds.
    pub fn seeded(link: &FriendLink) -> (r: FriendDraft)
        ensures
            r.name@ == link.name@,
            r.url@ == link.url@,
            r.avatar@ == or_empty(link.avatar_url),
            r.description@ == link.description@,
            r.sort@ == spec_int_text(link.sort_order as int),
            r.is_active == link.is_active,
            !r.avatar_failed,
    {
        let avatar = match &link.avatar_url {
            Some(a) => a.clone(),
            None => String::new(),
        };
        FriendDraft {
            name: link.name.clone(),
            url: link.url.clone(),
            avatar,
            description: link.description.clone(),
            sort: i64_text(link.sort_order as i64),
            is_active: link.is_active,
            avatar_failed: false,
        }
    }
}

/// The submit button is disabled while saving, while an avatar uploads,
/// or while the name or the URL is blank.
pub fn submit_disabled(busy: bool, avatar_uploading: bool, name: &str, url: &str) -> (r: bool)
    ensures
        r == (busy || avatar_uploading || trim_seq(name@).len() == 0 || trim_seq(url@).len() == 0),
{
    let n = trim(name);
    let u = trim(url);
    busy || avatar_uploading || n.unicode_len() == 0 || u.unicode_len() == 0
}

/// What a save sends (the id and the active flag only when editing).
pub struct FriendPayload {
    pub name: String,
    pub url: String,
    pub avatar: Option<String>,
    pub description: String,
    pub sort: i32,
}

/// What a click on the submit button does.
pub enum SubmitDecision {
    /// Nothing (already saving, or name or URL blank).
    Ignore,
    /// The sort box is not an integer: an error toast.
    BadSort,
    /// Create a link.
    Create(FriendPayload),
    /// Update link `id`, with its active flag.
    Update { id: i64, payload: FriendPayload, active: bool },
}

/// The payload's fields are the trimmed drafts; a blank avatar is none.
pub open spec fn payload_matches(p: FriendPayload, d: FriendDraft, sort: i32) -> bool {
    &&& p.name@ == trim_seq(d.name@)
    &&& p.url@ == trim_seq(d.url@)
    &&& (if trim_seq(d.avatar@).len() == 0 {
        p.avatar is None
    } else {
        p.avatar matches Some(a) && a@ == trim_seq(d.avatar@)
    })
    &&& p.description@ == trim_seq(d.description@)
    &&& p.sort == sort
}

/// The submit button: ignored while saving or with a blank name or URL;
/// a sort that is not an integer is refused; otherwise the trimmed drafts
/// are sent, as an update of the edited link or as a new link.
pub fn submit(d: &FriendDraft, editing: &Option<FriendLink>, busy: bool) -> (r: SubmitDecision)
    ensures
        busy || trim_seq(d.name@).len() == 0 || trim_seq(d.url@).len() == 0 ==> r is Ignore,
        !(busy || trim_seq(d.name@).len() == 0 || trim_seq(d.url@).len() == 0) ==> match spec_parse_i32(
            trim_seq(d.sort@),
        ) {
            None => r is BadSort,
            Some(sort) => match *editing {
                None => r matches SubmitDecision::Create(p) && payload_matches(p, *d, sort),
                Some(link) => r matches SubmitDecision::Update { id, payload, active } && id == link.id
                    && active == d.is_active && payload_matches(payload, *d, sort),
            },
        },
{
    if busy {
        return SubmitDecision::Ignore;
    }
    let n = trim(d.name.as_str());
    let u = trim(d.url.as_str());
    if n.unicode_len() == 0 || u.unicode_len() == 0 {
        return SubmitDecision::Ignore;
    }
    let a = trim(d.avatar.as_str());
    let av = if a.unicode_len() == 0 {
        None
    } else {
        Some(a)
    };
    let desc = trim(d.description.as_str());
    let s = trim(d.sort.as_str());
    let sort = match parse_i32(s.as_str()) {
        Some(v) => v,
        None => {
            return SubmitDecision::BadSort;
        },
    };
    let payload = FriendPayload { name: n, url: u, avatar: av, description: desc, sort };
    match editing {
        Some(link) => SubmitDecision::Update { id: link.id, payload, active: d.is_active },
        None => SubmitDecision::Create(payload),
    }
}

/// The page's shared state: list reload generation, toast, edit target,
/// the form's drafts and its saving flag.
pub struct FriendsPage {
    pub reload_gen: u32,
    pub toast: Option<(String, bool)>,
    pub editing: Option<FriendLink>,
    pub draft: FriendDraft,
    pub busy: bool,
}

impl FriendsPage {
    /// The page as it opens.
    pub fn new() -> (r: FriendsPage)
        ensures
            r.reload_gen == 0,
            r.toast is None,
            r.editing is None,
            r.draft.sort@ == "0"@,
            r.draft.is_active,
            !r.busy,
    {
        FriendsPage { reload_gen: 0, toast: None, editing: None, draft: FriendDraft::empty(), busy: false }
    }

    /// "Edit" on a row: the form switches to that link, seeded from it.
    pub fn start_edit(&mut self, link: FriendLink)
        ensures
            final(self).editing == Some(link),
            final(self).draft.name@ == link.name@,
            final(self).draft.url@ == link.url@,
            final(self).draft.avatar@ == or_empty(link.avatar_url),
            final(self).draft.description@ == link.description@,
            final(self).draft.sort@ == spec_int_text(link.sort_order as int),
            final(self).draft.is_active == link.is_active,
            !final(self).draft.avatar_failed,
            final(self).reload_gen == old(self).reload_gen,
            final(self).toast == old(self).toast,
            final(self).busy == old(self).busy,
    {
        self.draft = FriendDraft::seeded(&link);
        self.editing = Some(link);
    }

    /// "Cancel editing": back to an empty create form.
    pub fn cancel_edit(&mut self)
        ensures
            final(self).editing is None,
            final(self).draft.name@.len() == 0 && final(self).draft.url@.len() == 0,
            final(self).draft.avatar@.len() == 0 && final(self).draft.description@.len() == 0,
            final(self).draft.sort@ == "0"@,
            final(self).draft.is_active,
            !final(self).draft.avatar_failed,
            final(self).reload_gen == old(self).reload_gen,
            final(self).toast == old(self).toast,
            final(self).busy == old(self).busy,
    {
        self.editing = None;
        self.draft = FriendDraft::empty();
    }

    /// A click on submit: decides, and marks the form busy when a request
    /// goes out, or shows the sort error.
    pub fn click_submit(&mut self) -> (r: SubmitDecision)
        ensures
            r is Create || r is Update ==> final(self).busy && final(self).toast == old(self).toast,
            r is BadSort ==> (final(self).toast matches Some((m, true)) && m@ == "排序值必须是整数"@)
                && final(self).busy == old(self).busy,
            r is Ignore ==> final(self).toast == old(self).toast && final(self).busy == old(self).busy,
            final(self).editing == old(self).editing,
            final(self).draft == old(self).draft,
            final(self).reload_gen == old(self).reload_gen,
            (r is Ignore) == (old(self).busy || trim_seq(old(self).draft.name@).len() == 0 || trim_seq(
                old(self).draft.url@,
            ).len() == 0),
            !(r is Ignore) ==> ((r is BadSort) <==> spec_parse_i32(trim_seq(old(self).draft.sort@))
                is None),
            !(r is Ignore) && !(r is BadSort) ==> match spec_parse_i32(
                trim_seq(old(self).draft.sort@),
            ) {
                None => false,
                Some(sort) => match old(self).editing {
                    None => r matches SubmitDecision::Create(p) && payload_matches(
                        p,
                        old(self).draft,
                        sort,
                    ),
                    Some(link) => r matches SubmitDecision::Update { id, payload, active } && id
                        == link.id && active == old(self).draft.is_active && payload_matches(
                        payload,
                        old(self).draft,
                        sort,
                    ),
                },
            },
    {
        let r = submit(&self.draft, &self.editing, self.busy);
        match &r {
            SubmitDecision::BadSort => {
                self.toast = Some((String::from_str("排序值必须是整数"), true));
            },
            SubmitDecision::Ignore => {},
            _ => {
                self.busy = true;
            },
        }
        r
    }

    /// The save answered. Success: a toast for the kind of save, back to
    /// an empty create form, and the list reloads. Failure: an error toast.
    pub fn save_answered(&mut self, was_edit: bool, result: Result<(), String>)
        requires
            result is Ok ==> old(self).reload_gen < u32::MAX,
        ensures
            !final(self).busy,
            result is Ok ==> ({
                &&& final(self).toast matches Some((m, false)) && (if was_edit {
                    m@ == "已成功更新友链"@
                } else {
                    m@ == "已成功添加友链"@
                })
                &&& final(self).editing is None
                &&& final(self).draft.name@.len() == 0 && final(self).draft.sort@ == "0"@
                &&& final(self).reload_gen == old(self).reload_gen + 1
            }),
            result matches Err(e) ==> ({
                &&& final(self).toast matches Some((m, true)) && m@ == "保存失败："@ + e@
                &&& final(self).editing == old(self).editing
                &&& final(self).draft == old(self).draft
                &&& final(self).reload_gen == old(self).reload_gen
            }),
    {
        match result {
            Ok(()) => {
                let m = if was_edit {
                    String::from_str("已成功更新友链")
                } else {
                    String::from_str("已成功添加友链")
                };
                self.toast = Some((m, false));
                self.editing = None;
                self.draft = FriendDraft::empty();
                self.reload_gen = self.reload_gen + 1;
            },
            Err(e) => {
                let mut m = String::from_str("保存失败：");
                m.append(e.as_str());
                self.toast = Some((m, true));
            },
        }
        self.busy = false;
    }

    /// A delete answered: success reloads the list.
    pub fn delete_answered(&mut self, result: Result<(), String>)
        requires
            result is Ok ==> old(self).reload_gen < u32::MAX,
        ensures
            result is Ok ==> (final(self).toast matches Some((m, false)) && m@ == "已删除友链"@)
                && final(self).reload_gen == old(self).reload_gen + 1,
            result matches Err(e) ==> (final(self).toast matches Some((m, true)) && m@ == "删除失败："@
                + e@) && final(self).reload_gen == old(self).reload_gen,
            final(self).editing == old(self).editing,
            final(self).draft == old(self).draft,
            final(self).busy == old(self).busy,
    {
        match result {
            Ok(()) => {
                self.toast = Some((String::from_str("已删除友链"), false));
                self.reload_gen = self.reload_gen + 1;
            },
            Err(e) => {
                let mut m = String::from_str("删除失败：");
                m.append(e.as_str());
                self.toast = Some((m, true));
            },
        }
    }

    /// Typing a new avatar URL (or picking one) retries the preview.
    pub fn set_avatar(&mut self, v: String)
        ensures
            final(self).draft.avatar == v,
            !final(self).draft.avatar_failed,
            final(self).draft.name == old(self).draft.name,
            final(self).draft.url == old(self).draft.url,
            final(self).draft.sort == old(self).draft.sort,
            final(self).editing == old(self).editing,
    {
        self.draft.avatar = v;
        self.draft.avatar_failed = false;
    }
}

/// The list loads when the reload generation differs from the one it
/// last loaded for.
pub fn list_should_load(reload_gen: u32, loaded_gen: Option<u32>) -> (r: bool)
    ensures
        r == (loaded_gen != Some(reload_gen)),
{
    match loaded_gen {
        Some(g) => g != reload_gen,
        None => true,
    }
}

/// What Unicode maps a character to in upper case (`char::to_uppercase`;
/// one to three characters).
pub uninterp spec fn char_upper(c: char) -> Seq<char>;

/// std: `char::to_uppercase`, collected into a string. Claimed: the text
/// depends on the character alone. Unicode's mapping itself is not stated.
#[verifier::external_body]
fn upper_text(c: char) -> (r: String)
    ensures
        r@ == char_upper(c),
{
    c.to_uppercase().collect()
}

/// The avatar tile's initial: the name's first character in upper case,
/// `?` for an empty name.
pub fn initial(name: &str) -> (r: String)
    ensures
        name@.len() == 0 ==> r@ == "?"@,
        name@.len() > 0 ==> r@ == char_upper(name@[0]),
{
    if name.unicode_len() == 0 {
        String::from_str("?")
    } else {
        upper_text(name.get_char(0))
    }
}

/// The form's avatar tile shows the initial when the avatar is blank or
/// failed to load, else the image.
pub fn form_shows_initial(avatar: &str, failed: bool) -> (r: bool)
    ensures
        r == (trim_seq(avatar@).len() == 0 || failed),
{
    let a = trim(avatar);
    a.unicode_len() == 0 || failed
}

/// The form's title.
pub fn form_title(editing: bool) -> (r: &'static str)
    ensures
        editing ==> r@ == "编辑友链"@,
        !editing ==> r@ == "添加新友链"@,
{
    if editing {
        "编辑友链"
    } else {
        "添加新友链"
    }
}

/// The submit button's label.
pub fn submit_label(busy: bool, editing: bool) -> (r: &'static str)
    ensures
        busy ==> r@ == "保存中…"@,
        !busy && editing ==> r@ == "保存修改"@,
        !busy && !editing ==> r@ == "确认添加"@,
{
    if busy {
        "保存中…"
    } else if editing {
        "保存修改"
    } else {
        "确认添加"
    }
}

/// A row's sort badge.
pub fn sort_badge(sort_order: i32) -> (r: String)
    ensures
        r@ == "排序 #"@ + spec_int_text(sort_order as int),
{
    let mut out = String::from_str("排序 #");
    let n = i64_text(sort_order as i64);
    out.append(n.as_str());
    out
}

/// A row's status badge.
pub fn active_label(is_active: bool) -> (r: &'static str)
    ensures
        is_active ==> r@ == "启用"@,
        !is_active ==> r@ == "停用"@,
{
    if is_active {
        "启用"
    } else {
        "停用"
    }
}

/// The delete confirmation of a row.
pub fn delete_prompt(name: &str) -> (r: String)
    ensures
        r@ == "确定要删除「"@ + name@ + "」吗？"@,
{
    let mut out = String::from_str("确定要删除「");
    out.append(name);
    out.append("」吗？");
    out
}

/// The list's heading with its count.
pub fn list_heading(count: usize) -> (r: String)
    ensures
        r@ == "已添加友链 ("@ + spec_decimal(count as nat) + ")"@,
{
    let mut out = String::from_str("已添加友链 (");
    let n = u64_text(count as u64);
    out.append(n.as_str());
    out.append(")");
    out
}

/// What the list body shows.
#[derive(Clone, Copy, Debug, PartialEq, Eq, Structural)]
pub enum FriendsBody {
    Skeleton,
    Empty,
    Rows,
}

/// The list body: the skeleton while loading with nothing shown; the
/// empty note; else the rows.
pub fn friends_body(loading: bool, empty: bool) -> (r: FriendsBody)
    ensures
        loading && empty ==> r == FriendsBody::Skeleton,
        !loading && empty ==> r == FriendsBody::Empty,
        !empty ==> r == FriendsBody::Rows,
{
    if loading && empty {
        FriendsBody::Skeleton
    } else if empty {
        FriendsBody::Empty
    } else {
        FriendsBody::Rows
    }
}

/// The staggered entry delay of the `i`-th row, 40 ms apart.
pub fn link_row_delay(i: u32) -> (r: u32)
    requires
        i * 40 <= u32::MAX,
    ensures
        r == i * 40,
{
    i * 40
}

/// A link opened for editing and saved without touching the sort box is
/// sent with its own sort order (the seeded text always parses back).
pub proof fn lemma_edit_keeps_sort(link: FriendLink, d: FriendDraft)
    requires
        d.sort@ == spec_int_text(link.sort_order as int),
    ensures
        spec_parse_i32(trim_seq(d.sort@)) == Some(link.sort_order),
{
    lemma_int_text_parses(link.sort_order);
}

} // verus!
