//! The account profile page: the editable drafts seeded from the saved
//! profile, what counts as an unsaved change, the identity card's label,
//! what a save sends and what its answer does, and the password form.

use vstd::prelude::*;

use crate::dates::{utc_format, in_range, utc_text};
use crate::settings::toast_should_close;
use crate::text::{str_eq, trim, trim_seq};

verus! {

/// The saved profile of the signed-in account.
pub struct SavedProfile {
    pub username: String,
    pub email: String,
    pub display_name: Option<String>,
    pub avatar_url: Option<String>,
    /// Registration time, seconds since the epoch (UTC).
    pub created_at: i64,
}

/// The basic-information drafts.
pub struct ProfileDraft {
    pub email: String,
    pub display_name: String,
    pub avatar: Option<String>,
}

/// The text of an optional string (`unwrap_or_default`).
pub open spec fn or_empty(s: Option<String>) -> Seq<char> {
    match s {
        Some(t) => t@,
        None => Seq::empty(),
    }
}

/// The view of an optional string.
pub open spec fn opt_view(s: Option<String>) -> Option<Seq<char>> {
    match s {
        Some(t) => Some(t@),
        None => None,
    }
}

fn clone_opt(s: &Option<String>) -> (r: Option<String>)
    ensures
        opt_view(r) == opt_view(*s),
{
    match s {
        Some(t) => Some(t.clone()),
        None => None,
    }
}

fn opt_eq(a: &Option<String>, b: &Option<String>) -> (r: bool)
    ensures
        r == (opt_view(*a) == opt_view(*b)),
{
    match (a, b) {
        (Some(x), Some(y)) => str_eq(x.as_str(), y.as_str()),
        (None, None) => true,
        _ => false,
    }
}

/// The drafts a loaded (or freshly saved) profile seeds.
pub fn seed_draft(user: &SavedProfile) -> (r: ProfileDraft)
    ensures
        r.email@ == user.email@,
        r.display_name@ == or_empty(user.display_name),
        opt_view(r.avatar) == opt_view(user.avatar_url),
{
    let name = match &user.display_name {
        Some(n) => n.clone(),
        None => String::new(),
    };
    ProfileDraft { email: user.email.clone(), display_name: name, avatar: clone_opt(&user.avatar_url) }
}

/// The drafts differ from the saved profile: the email or the display
/// name (both compared trimmed) or the avatar changed.
pub open spec fn profile_dirty_spec(saved: Option<SavedProfile>, d: ProfileDraft) -> bool {
    match saved {
        None => false,
        Some(s) => trim_seq(d.email@) != s.email@ || trim_seq(d.display_name@) != or_empty(
            s.display_name,
        ) || opt_view(d.avatar) != opt_view(s.avatar_url),
    }
}

/// Each field's change is seen on its own: once the profile loaded, a
/// trimmed email or display name that differs from the saved one (a
/// missing display name counting as empty), or another avatar, makes the
/// card dirty whatever the other fields hold; when none differs it is
/// clean. Before the profile loads nothing is dirty.
pub proof fn lemma_each_field_change_is_seen(saved: Option<SavedProfile>, d: ProfileDraft)
    ensures
        saved is None ==> !profile_dirty_spec(saved, d),
        saved matches Some(s) && trim_seq(d.display_name@) != or_empty(s.display_name)
            ==> profile_dirty_spec(saved, d),
        saved matches Some(s) && trim_seq(d.email@) != s.email@ ==> profile_dirty_spec(saved, d),
        saved matches Some(s) && opt_view(d.avatar) != opt_view(s.avatar_url) ==> profile_dirty_spec(
            saved,
            d,
        ),
        saved matches Some(s) && trim_seq(d.email@) == s.email@ && trim_seq(d.display_name@)
            == or_empty(s.display_name) && opt_view(d.avatar) == opt_view(s.avatar_url)
            ==> !profile_dirty_spec(saved, d),
{
}

/// Whether the basic-information card has unsaved changes (never before
/// the profile loaded).
pub fn profile_dirty(saved: &Option<SavedProfile>, d: &ProfileDraft) -> (r: bool)
    ensures
        r == profile_dirty_spec(*saved, *d),
{
    match saved {
        None => false,
        Some(s) => {
            let e = trim(d.email.as_str());
            let n = trim(d.display_name.as_str());
            let saved_name = match &s.display_name {
                Some(x) => x.clone(),
                None => String::new(),
            };
            !str_eq(e.as_str(), s.email.as_str()) || !str_eq(n.as_str(), saved_name.as_str())
                || !opt_eq(&d.avatar, &s.avatar_url)
        },
    }
}

/// The identity card's name: the display-name draft (trimmed), else the
/// username.
pub fn identity_label(display_name_draft: &str, username: &str) -> (r: String)
    ensures
        trim_seq(display_name_draft@).len() == 0 ==> r@ == username@,
        trim_seq(display_name_draft@).len() > 0 ==> r@ == trim_seq(display_name_draft@),
{
    let t = trim(display_name_draft);
    if t.unicode_len() == 0 {
        String::from_str(username)
    } else {
        t
    }
}

/// The identity card's registration line for a rendered date.
pub fn registered_line(date: &str) -> (r: String)
    ensures
        r@ == "注册于 "@ + date@,
{
    let mut out = String::from_str("注册于 ");
    out.append(date);
    out
}

/// The identity card's registration line of a profile (`None` only for a
/// timestamp chrono cannot represent).
pub fn profile_registered_line(user: &SavedProfile) -> (r: Option<String>)
    ensures
        r matches Some(s) ==> s@ == "注册于 "@ + utc_format(user.created_at as int, "%Y-%m-%d"@),
        in_range(user.created_at as int) ==> r is Some,
{
    match utc_text(user.created_at, "%Y-%m-%d") {
        Some(d) => Some(registered_line(d.as_str())),
        None => None,
    }
}

/// The hint beside the save button.
#[derive(Clone, Copy, Debug, PartialEq, Eq, Structural)]
pub enum SaveHint {
    /// "已保存" right after a save.
    Saved,
    /// "有未保存的更改".
    Unsaved,
    /// Nothing.
    Blank,
}

/// The hint beside the save button.
pub fn save_hint(just_saved: bool, dirty: bool) -> (r: SaveHint)
    ensures
        just_saved ==> r == SaveHint::Saved,
        !just_saved && dirty ==> r == SaveHint::Unsaved,
        !just_saved && !dirty ==> r == SaveHint::Blank,
{
    if just_saved {
        SaveHint::Saved
    } else if dirty {
        SaveHint::Unsaved
    } else {
        SaveHint::Blank
    }
}

/// The save button is disabled without changes, right after a save, and
/// while an avatar uploads.
pub fn save_profile_disabled(dirty: bool, just_saved: bool, avatar_uploading: bool) -> (r: bool)
    ensures
        r == (!dirty || just_saved || avatar_uploading),
{
    !dirty || just_saved || avatar_uploading
}

/// What a save sends: the email and display name trimmed (the name always
/// sent, possibly empty), the avatar as it is.
pub struct ProfileUpdate {
    pub email: String,
    pub display_name: Option<String>,
    pub avatar: Option<String>,
}

/// The request of a save.
pub fn profile_update(d: &ProfileDraft) -> (r: ProfileUpdate)
    ensures
        r.email@ == trim_seq(d.email@),
        r.display_name matches Some(n) && n@ == trim_seq(d.display_name@),
        opt_view(r.avatar) == opt_view(d.avatar),
{
    ProfileUpdate {
        email: trim(d.email.as_str()),
        display_name: Some(trim(d.display_name.as_str())),
        avatar: clone_opt(&d.avatar),
    }
}

/// The profile form: saved profile, drafts, the "just saved" mark and the
/// page's toast (message, is-error).
pub struct ProfileForm {
    pub saved: Option<SavedProfile>,
    pub draft: ProfileDraft,
    pub just_saved: bool,
    pub toast: Option<(String, bool)>,
}

impl ProfileForm {
    /// Before the profile loads.
    pub fn new() -> (r: ProfileForm)
        ensures
            r.saved is None,
            r.draft.email@.len() == 0,
            r.draft.display_name@.len() == 0,
            r.draft.avatar is None,
            !r.just_saved,
            r.toast is None,
    {
        ProfileForm {
            saved: None,
            draft: ProfileDraft { email: String::new(), display_name: String::new(), avatar: None },
            just_saved: false,
            toast: None,
        }
    }

    /// The profile loaded: drafts are seeded from it.
    pub fn loaded(&mut self, user: SavedProfile)
        ensures
            final(self).draft.email@ == user.email@,
            final(self).draft.display_name@ == or_empty(user.display_name),
            opt_view(final(self).draft.avatar) == opt_view(user.avatar_url),
            final(self).saved == Some(user),
            final(self).just_saved == old(self).just_saved,
            final(self).toast == old(self).toast,
    {
        self.draft = seed_draft(&user);
        self.saved = Some(user);
    }

    /// Loading failed: an error toast.
    pub fn load_failed(&mut self, err: &str)
        ensures
            final(self).toast matches Some((m, true)) && m@ == "加载失败："@ + err@,
            final(self).saved == old(self).saved,
            final(self).draft == old(self).draft,
            final(self).just_saved == old(self).just_saved,
    {
        let mut m = String::from_str("加载失败：");
        m.append(err);
        self.toast = Some((m, true));
    }

    /// Typing in the email box.
    pub fn edit_email(&mut self, v: String)
        ensures
            final(self).draft.email == v,
            final(self).draft.display_name == old(self).draft.display_name,
            final(self).draft.avatar == old(self).draft.avatar,
            final(self).saved == old(self).saved,
            !final(self).just_saved,
            final(self).toast == old(self).toast,
    {
        self.draft.email = v;
        self.just_saved = false;
    }

    /// Typing in the display-name box.
    pub fn edit_display_name(&mut self, v: String)
        ensures
            final(self).draft.display_name == v,
            final(self).draft.email == old(self).draft.email,
            final(self).draft.avatar == old(self).draft.avatar,
            final(self).saved == old(self).saved,
            !final(self).just_saved,
            final(self).toast == old(self).toast,
    {
        self.draft.display_name = v;
        self.just_saved = false;
    }

    /// An avatar picked in the asset picker (its first pick, if any), or
    /// removed (`None`).
    pub fn set_avatar(&mut self, url: Option<String>)
        ensures
            final(self).draft.avatar == url,
            final(self).draft.email == old(self).draft.email,
            final(self).draft.display_name == old(self).draft.display_name,
            final(self).saved == old(self).saved,
            !final(self).just_saved,
            final(self).toast == old(self).toast,
    {
        self.draft.avatar = url;
        self.just_saved = false;
    }

    /// The save was accepted: the server's normalized profile (when sent)
    /// reseeds the drafts and becomes the saved one; the form is marked
    /// saved and the message shown.
    pub fn save_accepted(&mut self, user: Option<SavedProfile>, message: String)
        ensures
            final(self).just_saved,
            final(self).toast == Some((message, false)),
            user is None ==> final(self).saved == old(self).saved && final(self).draft == old(self).draft,
            user matches Some(u) ==> final(self).saved == Some(u) && final(self).draft.email@ == u.email@
                && final(self).draft.display_name@ == or_empty(u.display_name) && opt_view(
                final(self).draft.avatar,
            ) == opt_view(u.avatar_url),
    {
        match user {
            Some(u) => {
                self.draft = seed_draft(&u);
                self.saved = Some(u);
            },
            None => {},
        }
        self.just_saved = true;
        self.toast = Some((message, false));
    }

    /// The save was refused: the server's message as an error.
    pub fn save_refused(&mut self, message: String)
        ensures
            final(self).toast == Some((message, true)),
            final(self).saved == old(self).saved,
            final(self).draft == old(self).draft,
            final(self).just_saved == old(self).just_saved,
    {
        self.toast = Some((message, true));
    }

    /// The save request failed.
    pub fn save_failed(&mut self, err: &str)
        ensures
            final(self).toast matches Some((m, true)) && m@ == "保存失败："@ + err@,
            final(self).saved == old(self).saved,
            final(self).draft == old(self).draft,
            final(self).just_saved == old(self).just_saved,
    {
        let mut m = String::from_str("保存失败：");
        m.append(err);
        self.toast = Some((m, true));
    }

    /// The toast's timer for `key` ended: it closes unless a newer message
    /// replaced it.
    pub fn toast_elapsed(&mut self, key: &str)
        ensures
            (old(self).toast matches Some((m, _)) && m@ == key@) ==> final(self).toast is None,
            !(old(self).toast matches Some((m, _)) && m@ == key@) ==> final(self).toast == old(
                self,
            ).toast,
            final(self).saved == old(self).saved,
            final(self).draft == old(self).draft,
            final(self).just_saved == old(self).just_saved,
    {
        if toast_should_close(&self.toast, key) {
            self.toast = None;
        }
    }
}

/// The password form.
pub struct PasswordForm {
    pub current: String,
    pub new: String,
    pub confirm: String,
}

/// The password rules, over the three boxes' texts. The length counts
/// bytes of UTF-8, as `String::len` does.
pub open spec fn password_submittable(current: Seq<char>, new: Seq<char>, confirm: Seq<char>) -> bool {
    current.len() > 0 && (vstd::utf8::encode_utf8(new).len() as usize) >= 8 && new == confirm
}

impl PasswordForm {
    /// Empty boxes.
    pub fn new() -> (r: PasswordForm)
        ensures
            r.current@.len() == 0,
            r.new@.len() == 0,
            r.confirm@.len() == 0,
    {
        PasswordForm { current: String::new(), new: String::new(), confirm: String::new() }
    }

    /// "两次输入的新密码不一致" shows once a confirmation was typed that
    /// differs from the new password.
    pub fn mismatch(&self) -> (r: bool)
        ensures
            r == (self.confirm@.len() > 0 && self.new@ != self.confirm@),
    {
        self.confirm.unicode_len() > 0 && !str_eq(self.new.as_str(), self.confirm.as_str())
    }

    /// The change button is enabled with a current password, a new one of
    /// at least 8 bytes, and a matching confirmation.
    pub fn can_submit(&self) -> (r: bool)
        ensures
            r == password_submittable(self.current@, self.new@, self.confirm@),
    {
        self.current.unicode_len() > 0 && self.new.as_str().len() >= 8 && str_eq(
            self.new.as_str(),
            self.confirm.as_str(),
        )
    }

    /// The change succeeded: the boxes are cleared.
    pub fn changed(&mut self)
        ensures
            final(self).current@.len() == 0,
            final(self).new@.len() == 0,
            final(self).confirm@.len() == 0,
    {
        self.current = String::new();
        self.new = String::new();
        self.confirm = String::new();
    }
}

/// The text under the password boxes; with the `ADMIN_*` environment
/// override active it warns that a restart restores the configured
/// password.
pub fn password_note(admin_env_active: bool) -> (r: &'static str)
    ensures
        admin_env_active ==> r@
            == "修改成功后，其他设备的登录会话将自动退出，本端保持登录；已启用 ADMIN_* 环境变量时，重启后密码以环境变量为准。"@,
        !admin_env_active ==> r@ == "修改成功后，其他设备的登录会话将自动退出，本端保持登录。"@,
{
    if admin_env_active {
        "修改成功后，其他设备的登录会话将自动退出，本端保持登录；已启用 ADMIN_* 环境变量时，重启后密码以环境变量为准。"
    } else {
        "修改成功后，其他设备的登录会话将自动退出，本端保持登录。"
    }
}

/// The toast of a failed password change request.
pub fn change_failed_text(err: &str) -> (r: String)
    ensures
        r@ == "修改失败："@ + err@,
{
    let mut m = String::from_str("修改失败：");
    m.append(err);
    m
}

/// Right after the profile loads (or a save is accepted), the form has no
/// unsaved changes, provided the server's email and display name carry no
/// surrounding whitespace (the form compares them trimmed).
pub proof fn lemma_seeded_profile_clean(u: SavedProfile, d: ProfileDraft)
    requires
        d.email@ == u.email@,
        d.display_name@ == or_empty(u.display_name),
        opt_view(d.avatar) == opt_view(u.avatar_url),
        trim_seq(u.email@) == u.email@,
        trim_seq(or_empty(u.display_name)) == or_empty(u.display_name),
    ensures
        !profile_dirty_spec(Some(u), d),
{
}

} // verus!
