//! Notes administration: the quick-capture box, the note editor's draft
//! bookkeeping (dirtiness, save-and-merge, autosave, local recovery copy),
//! tags and notebooks of a draft, the list filters, and notebook ordering.

use vstd::prelude::*;

use crate::dates::{in_range, utc_format, utc_text};
use crate::text::{i64_text, spec_int_text, str_eq, string_from_chars, trim, trim_seq};

verus! {

/// A completed quick save clears the box only when it still holds exactly
/// the submitted text: anything typed after the submit is kept.
pub fn clear_submitted(current: &mut String, submitted: &str) -> (cleared: bool)
    ensures
        cleared == (old(current)@ == submitted@),
        cleared ==> final(current)@ == Seq::<char>::empty(),
        !cleared ==> final(current)@ == old(current)@,
{
    if !str_eq(current.as_str(), submitted) {
        return false;
    }
    *current = String::new();
    true
}

/// Tag separators: the ASCII and the full-width comma.
pub open spec fn is_tag_sep(c: char) -> bool {
    c == ',' || c == '，'
}

/// The fields of `s` between separators (`str::split` with both commas):
/// always at least one, empty ones included.
pub open spec fn tag_fields(s: Seq<char>) -> Seq<Seq<char>>
    decreases s.len(),
{
    if s.len() == 0 {
        seq![Seq::empty()]
    } else {
        let f = tag_fields(s.drop_last());
        if is_tag_sep(s.last()) {
            f.push(Seq::empty())
        } else {
            f.update(f.len() - 1, f.last().push(s.last()))
        }
    }
}

proof fn lemma_tag_fields_nonempty(s: Seq<char>)
    ensures
        tag_fields(s).len() >= 1,
    decreases s.len(),
{
    if s.len() > 0 {
        lemma_tag_fields_nonempty(s.drop_last());
    }
}

/// The trimmed fields that are not empty, in order.
pub open spec fn nonempty_trimmed(fields: Seq<Seq<char>>) -> Seq<Seq<char>>
    decreases fields.len(),
{
    if fields.len() == 0 {
        Seq::empty()
    } else {
        let p = nonempty_trimmed(fields.drop_last());
        let t = trim_seq(fields.last());
        if t.len() > 0 {
            p.push(t)
        } else {
            p
        }
    }
}

/// The tags typed into the tag box.
pub open spec fn tags_spec(s: Seq<char>) -> Seq<Seq<char>> {
    nonempty_trimmed(tag_fields(s))
}

/// Splits the tag box on either comma, trims each part and drops the
/// empty ones.
pub fn parse_tags(value: &str) -> (r: Vec<String>)
    ensures
        r@.len() == tags_spec(value@).len(),
        forall|k: int| 0 <= k < r@.len() ==> #[trigger] r@[k]@ == tags_spec(value@)[k],
{
    let n = value.unicode_len();
    let mut out: Vec<String> = Vec::new();
    let ghost mut done: Seq<Seq<char>> = Seq::empty();
    let mut cur: Vec<char> = Vec::new();
    let mut i: usize = 0;
    proof {
        assert(value@.subrange(0, 0).len() == 0);
    }
    while i < n
        invariant
            n == value@.len(),
            i <= n,
            tag_fields(value@.subrange(0, i as int)) == done.push(cur@),
            out@.len() == nonempty_trimmed(done).len(),
            forall|k: int| 0 <= k < out@.len() ==> #[trigger] out@[k]@ == nonempty_trimmed(done)[k],
        decreases n - i,
    {
        let c = value.get_char(i);
        proof {
            assert(value@.subrange(0, i + 1).drop_last() =~= value@.subrange(0, i as int));
            assert(value@.subrange(0, i + 1).last() == c);
        }
        if c == ',' || c == '，' {
            let field = string_from_chars(&cur);
            let t = trim(field.as_str());
            let ghost before = done;
            if t.unicode_len() > 0 {
                out.push(t);
            }
            proof {
                done = done.push(cur@);
                assert(done.drop_last() =~= before);
            }
            cur = Vec::new();
            proof {
                assert(done.push(cur@) =~= before.push(field@).push(Seq::<char>::empty()));
            }
        } else {
            let ghost before = cur@;
            cur.push(c);
            proof {
                let f = done.push(before);
                assert(f.update(f.len() - 1, f.last().push(c)) =~= done.push(cur@));
            }
        }
        i = i + 1;
    }
    let field = string_from_chars(&cur);
    let t = trim(field.as_str());
    let ghost before = done;
    if t.unicode_len() > 0 {
        out.push(t);
    }
    proof {
        assert(value@.subrange(0, n as int) =~= value@);
        done = done.push(cur@);
        assert(done.drop_last() =~= before);
    }
    out
}


/// Ascending order.
pub open spec fn ascending(s: Seq<i32>) -> bool {
    forall|i: int, j: int| 0 <= i < j < s.len() ==> s[i] <= s[j]
}

/// `s` without the occurrences of `x`, order kept.
pub open spec fn without_i32(s: Seq<i32>, x: i32) -> Seq<i32>
    decreases s.len(),
{
    if s.len() == 0 {
        s
    } else if s.last() == x {
        without_i32(s.drop_last(), x)
    } else {
        without_i32(s.drop_last(), x).push(s.last())
    }
}

/// Sorts ids ascending (`sort_unstable`).
pub fn sort_ids(v: Vec<i32>) -> (r: Vec<i32>)
    ensures
        ascending(r@),
        r@.to_multiset() == v@.to_multiset(),
{
    let ghost input = v@;
    let mut rest = v;
    let n = rest.len();
    let mut out: Vec<i32> = Vec::new();
    let mut i: usize = 0;
    proof {
        broadcast use vstd::seq_lib::group_to_multiset_ensures;
        assert(input.subrange(0, 0) =~= Seq::<i32>::empty());
    }
    while i < n
        invariant
            n == input.len(),
            i <= n,
            rest@ == input.subrange(i as int, n as int),
            ascending(out@),
            out@.to_multiset() == input.subrange(0, i as int).to_multiset(),
        decreases n - i,
    {
        let x = rest.remove(0);
        proof {
            assert(x == input[i as int]);
            assert(rest@ =~= input.subrange(i + 1, n as int));
        }
        let m = out.len();
        let mut p: usize = 0;
        while p < m && out[p] <= x
            invariant
                m == out@.len(),
                p <= m,
                forall|q: int| 0 <= q < p ==> out@[q] <= x,
            decreases m - p,
        {
            p = p + 1;
        }
        let ghost before = out@;
        out.insert(p, x);
        proof {
            broadcast use vstd::seq_lib::group_to_multiset_ensures;
            if p < m {
                assert(before[p as int] > x);
            }
            assert forall|a: int, b: int| 0 <= a < b < out@.len() implies out@[a] <= out@[b] by {
                if a < p && b > p {
                    assert(out@[a] == before[a] && out@[b] == before[b - 1]);
                } else if a < p && b == p {
                    assert(out@[a] == before[a]);
                } else if a == p && b > p {
                    assert(out@[b] == before[b - 1]);
                    assert(before[p as int] <= before[b - 1]);
                } else if a > p {
                    assert(out@[a] == before[a - 1] && out@[b] == before[b - 1]);
                } else {
                    assert(out@[a] == before[a] && out@[b] == before[b]);
                }
            }
            assert(out@ =~= before.insert(p as int, x));
            before.insert_ensures(p as int, x);
            assert(input.subrange(0, i + 1) =~= input.subrange(0, i as int).push(x));
        }
        i = i + 1;
    }
    proof {
        assert(input.subrange(0, n as int) =~= input);
    }
    out
}

/// A notebook checkbox of the editor: unchecking drops the notebook from
/// the draft; checking adds it once and keeps the list ascending.
pub fn toggle_notebook(ids: Vec<i32>, id: i32, checked: bool) -> (r: Vec<i32>)
    ensures
        !checked ==> r@ == without_i32(ids@, id),
        checked ==> ascending(r@) && r@.to_multiset() == without_i32(ids@, id).push(
            id,
        ).to_multiset(),
{
    let n = ids.len();
    let mut kept: Vec<i32> = Vec::new();
    let mut i: usize = 0;
    while i < n
        invariant
            n == ids@.len(),
            i <= n,
            kept@ == without_i32(ids@.subrange(0, i as int), id),
        decreases n - i,
    {
        let v = ids[i];
        proof {
            assert(ids@.subrange(0, i + 1).drop_last() =~= ids@.subrange(0, i as int));
        }
        if v != id {
            kept.push(v);
        }
        i = i + 1;
    }
    proof {
        assert(ids@.subrange(0, n as int) =~= ids@);
    }
    if checked {
        kept.push(id);
        sort_ids(kept)
    } else {
        kept
    }
}


/// How a note is written: a quick moment or a topic note.
#[derive(Clone, Copy, Debug, PartialEq, Eq, Structural)]
pub enum NoteKind {
    Moment,
    Topic,
}

/// The editable working copy of a note.
pub struct NoteDraft {
    pub id: Option<i32>,
    pub expected_version: Option<i32>,
    pub title: String,
    pub content_md: String,
    pub kind: NoteKind,
    pub tags: Vec<String>,
    pub notebook_ids: Vec<i32>,
}

/// A draft as plain values.
pub struct DraftView {
    pub id: Option<i32>,
    pub expected_version: Option<i32>,
    pub title: Seq<char>,
    pub content_md: Seq<char>,
    pub kind: NoteKind,
    pub tags: Seq<Seq<char>>,
    pub notebook_ids: Seq<i32>,
}

impl View for NoteDraft {
    type V = DraftView;

    open spec fn view(&self) -> DraftView {
        DraftView {
            id: self.id,
            expected_version: self.expected_version,
            title: self.title@,
            content_md: self.content_md@,
            kind: self.kind,
            tags: self.tags@.map_values(|t: String| t@),
            notebook_ids: self.notebook_ids@,
        }
    }
}

/// A saved note as the editor knows it.
pub struct SavedNote {
    pub id: i32,
    pub version: i32,
    /// The saved working copy.
    pub draft: NoteDraft,
    pub published_version: Option<i32>,
    pub knowledge_version: Option<i32>,
    /// The note is in the trash.
    pub deleted: bool,
}

/// Copies a string with its contents.
fn copy_string(s: &String) -> (r: String)
    ensures
        r@ == s@,
{
    s.clone()
}

fn copy_strings(v: &Vec<String>) -> (r: Vec<String>)
    ensures
        r@.map_values(|t: String| t@) == v@.map_values(|t: String| t@),
{
    let n = v.len();
    let mut out: Vec<String> = Vec::new();
    let mut i: usize = 0;
    while i < n
        invariant
            n == v@.len(),
            i <= n,
            out@.len() == i,
            forall|k: int| 0 <= k < i ==> #[trigger] out@[k]@ == v@[k]@,
        decreases n - i,
    {
        out.push(copy_string(&v[i]));
        i = i + 1;
    }
    proof {
        assert(out@.map_values(|t: String| t@) =~= v@.map_values(|t: String| t@));
    }
    out
}

fn copy_ids(v: &Vec<i32>) -> (r: Vec<i32>)
    ensures
        r@ == v@,
{
    let n = v.len();
    let mut out: Vec<i32> = Vec::new();
    let mut i: usize = 0;
    while i < n
        invariant
            n == v@.len(),
            i <= n,
            out@ == v@.subrange(0, i as int),
        decreases n - i,
    {
        out.push(v[i]);
        proof {
            assert(v@.subrange(0, i + 1) =~= v@.subrange(0, i as int).push(v@[i as int]));
        }
        i = i + 1;
    }
    proof {
        assert(v@.subrange(0, n as int) =~= v@);
    }
    out
}

impl NoteDraft {
    /// An empty new draft (a topic-less moment, as the default draft is).
    pub fn empty(kind: NoteKind) -> (r: NoteDraft)
        ensures
            r@.id is None,
            r@.expected_version is None,
            r@.title.len() == 0,
            r@.content_md.len() == 0,
            r@.kind == kind,
            r@.tags.len() == 0,
            r@.notebook_ids.len() == 0,
    {
        NoteDraft {
            id: None,
            expected_version: None,
            title: String::new(),
            content_md: String::new(),
            kind,
            tags: Vec::new(),
            notebook_ids: Vec::new(),
        }
    }

    /// A copy with the same contents.
    pub fn copy(&self) -> (r: NoteDraft)
        ensures
            r@ == self@,
    {
        NoteDraft {
            id: self.id,
            expected_version: self.expected_version,
            title: copy_string(&self.title),
            content_md: copy_string(&self.content_md),
            kind: self.kind,
            tags: copy_strings(&self.tags),
            notebook_ids: copy_ids(&self.notebook_ids),
        }
    }

    /// Same contents.
    pub fn same_as(&self, other: &NoteDraft) -> (r: bool)
        ensures
            r == (self@ == other@),
    {
        if self.id != other.id || self.expected_version != other.expected_version || self.kind
            != other.kind {
            return false;
        }
        if !str_eq(self.title.as_str(), other.title.as_str()) || !str_eq(
            self.content_md.as_str(),
            other.content_md.as_str(),
        ) {
            return false;
        }
        let n = self.tags.len();
        if n != other.tags.len() {
            proof {
                assert(self@.tags.len() != other@.tags.len());
            }
            return false;
        }
        let mut i: usize = 0;
        while i < n
            invariant
                n == self.tags@.len(),
                n == other.tags@.len(),
                i <= n,
                forall|k: int| 0 <= k < i ==> self.tags@[k]@ == other.tags@[k]@,
            decreases n - i,
        {
            if !str_eq(self.tags[i].as_str(), other.tags[i].as_str()) {
                proof {
                    assert(self@.tags[i as int] != other@.tags[i as int]);
                }
                return false;
            }
            i = i + 1;
        }
        proof {
            assert(self@.tags =~= other@.tags);
        }
        let m = self.notebook_ids.len();
        if m != other.notebook_ids.len() {
            return false;
        }
        let mut j: usize = 0;
        while j < m
            invariant
                m == self.notebook_ids@.len(),
                m == other.notebook_ids@.len(),
                j <= m,
                forall|k: int| 0 <= k < j ==> self.notebook_ids@[k] == other.notebook_ids@[k],
            decreases m - j,
        {
            if self.notebook_ids[j] != other.notebook_ids[j] {
                return false;
            }
            j = j + 1;
        }
        proof {
            assert(self@.notebook_ids =~= other@.notebook_ids);
        }
        true
    }
}

/// The editor holds changes not yet saved: against the saved note's
/// working copy, or, for a new note, any title or body text.
pub open spec fn dirty_spec(saved: Option<SavedNote>, draft: DraftView) -> bool {
    match saved {
        Some(n) => n.draft@ != draft,
        None => draft.content_md.len() > 0 || draft.title.len() > 0,
    }
}

/// A new note counts as changed as soon as it has a title or a body, each
/// on its own, and an untouched new note (both empty) does not. A saved
/// note counts as changed exactly when the draft differs from its working
/// copy.
pub proof fn lemma_new_note_text_is_a_change(saved: Option<SavedNote>, draft: DraftView)
    ensures
        saved is None && draft.content_md.len() > 0 ==> dirty_spec(saved, draft),
        saved is None && draft.title.len() > 0 ==> dirty_spec(saved, draft),
        saved is None && draft.content_md.len() == 0 && draft.title.len() == 0 ==> !dirty_spec(
            saved,
            draft,
        ),
        saved matches Some(n) ==> (dirty_spec(saved, draft) <==> n.draft@ != draft),
{
}

/// Whether the editor holds unsaved changes.
pub fn editor_dirty(saved: &Option<SavedNote>, draft: &NoteDraft) -> (r: bool)
    ensures
        r == dirty_spec(*saved, draft@),
{
    match saved {
        Some(n) => !n.draft.same_as(draft),
        None => draft.content_md.unicode_len() > 0 || draft.title.unicode_len() > 0,
    }
}

/// The explicit actions a save can be followed by.
#[derive(Clone, Copy, Debug, PartialEq, Eq, Structural)]
pub enum NoteAction {
    Publish,
    Unpublish,
    IncludeKnowledge,
    ExcludeKnowledge,
    Trash,
    Restore,
}

/// How a save request starts.
#[derive(Debug, PartialEq, Eq, Structural)]
pub enum PersistStart {
    /// A save is already running: nothing happens.
    Ignored,
    /// Images are still uploading (or failed): the save is refused with a
    /// message.
    Blocked,
    /// The save goes ahead; `must_save` when the draft has to be sent (it
    /// changed, or the note was never saved), else the saved note is reused.
    Saving { must_save: bool },
}

/// The message shown when a save is refused during uploads.
pub open spec fn blocked_text() -> Seq<char> {
    "请先等待图片上传完成，或移除失败的图片"@
}

/// Decides how a save request (manual, autosave, or before an action)
/// starts.
pub fn persist_start(busy: bool, uploading: bool, dirty: bool, has_saved: bool) -> (r: PersistStart)
    ensures
        busy ==> r == PersistStart::Ignored,
        !busy && uploading ==> r == PersistStart::Blocked,
        !busy && !uploading ==> r == (PersistStart::Saving { must_save: dirty || !has_saved }),
{
    if busy {
        PersistStart::Ignored
    } else if uploading {
        PersistStart::Blocked
    } else {
        PersistStart::Saving { must_save: dirty || !has_saved }
    }
}

/// The refusal text of `PersistStart::Blocked`.
pub fn blocked_message() -> (r: String)
    ensures
        r@ == blocked_text(),
{
    String::from_str("请先等待图片上传完成，或移除失败的图片")
}

/// The working copy after a save returned `note`: when nothing was typed
/// since the snapshot was sent, it becomes the saved copy; otherwise the
/// newer text stays and only the id and expected version advance.
pub fn merge_after_save(current: NoteDraft, snapshot: &NoteDraft, note: &SavedNote) -> (r: NoteDraft)
    ensures
        current@ == snapshot@ ==> r@ == note.draft@,
        current@ != snapshot@ ==> r@ == (DraftView {
            id: Some(note.id),
            expected_version: Some(note.version),
            ..current@
        }),
{
    if current.same_as(snapshot) {
        note.draft.copy()
    } else {
        let mut d = current;
        d.id = Some(note.id);
        d.expected_version = Some(note.version);
        d
    }
}

/// The status line after a successful save, by the action that followed.
pub open spec fn persist_ok_text(action: Option<NoteAction>) -> Seq<char> {
    match action {
        Some(NoteAction::Publish) => "公开版本已更新"@,
        Some(NoteAction::IncludeKnowledge) => "已收录当前版本"@,
        Some(NoteAction::Unpublish) => "已撤回公开版本"@,
        Some(NoteAction::ExcludeKnowledge) => "已移出知识库"@,
        Some(NoteAction::Trash) => "已移入回收站"@,
        _ => "草稿已保存"@,
    }
}

/// The status line after a save ended: per action on success, a fixed
/// notice on failure.
pub fn persist_status(action: Option<NoteAction>, ok: bool) -> (r: &'static str)
    ensures
        ok ==> r@ == persist_ok_text(action),
        !ok ==> r@ == "保存未完成"@,
{
    if !ok {
        return "保存未完成";
    }
    match action {
        Some(NoteAction::Publish) => "公开版本已更新",
        Some(NoteAction::IncludeKnowledge) => "已收录当前版本",
        Some(NoteAction::Unpublish) => "已撤回公开版本",
        Some(NoteAction::ExcludeKnowledge) => "已移出知识库",
        Some(NoteAction::Trash) => "已移入回收站",
        _ => "草稿已保存",
    }
}

/// An autosave is scheduled only for a dirty, idle editor without an
/// error or a pending recovery choice.
pub fn autosave_due(busy: bool, uploading: bool, failed: bool, recovery_pending: bool, dirty: bool) -> (r:
    bool)
    ensures
        r == (!busy && !uploading && !failed && !recovery_pending && dirty),
{
    !(busy || uploading || failed || recovery_pending || !dirty)
}

/// When the autosave delay ends it runs only if nothing was typed in the
/// meantime and the editor is still due.
pub fn autosave_fires(
    unchanged: bool,
    busy: bool,
    uploading: bool,
    failed: bool,
    recovery_pending: bool,
    dirty: bool,
) -> (r: bool)
    ensures
        r == (unchanged && !busy && !uploading && dirty && !failed && !recovery_pending),
{
    unchanged && !busy && !uploading && dirty && !failed && !recovery_pending
}

/// Restoring the tab's local copy: the local text, bound to the saved
/// note's id and version when there is one.
pub fn restore_local(local: NoteDraft, saved: &Option<SavedNote>) -> (r: NoteDraft)
    ensures
        saved is None ==> r@ == local@,
        saved matches Some(n) ==> r@ == (DraftView {
            id: Some(n.id),
            expected_version: Some(n.version),
            ..local@
        }),
{
    let mut d = local;
    match saved {
        Some(n) => {
            d.id = Some(n.id);
            d.expected_version = Some(n.version);
        },
        None => {},
    }
    d
}

/// Restoring a revision: its text, expected at the current saved version.
pub fn restore_revision(revision: NoteDraft, saved_version: Option<i32>) -> (r: NoteDraft)
    ensures
        r@ == (DraftView { expected_version: saved_version, ..revision@ }),
{
    let mut d = revision;
    d.expected_version = saved_version;
    d
}


/// The recovery slot of an editor: the note id, or `new` for an unsaved
/// note.
pub fn editor_slot(id: Option<i32>) -> (r: String)
    ensures
        id matches Some(i) ==> r@ == spec_int_text(i as int),
        id is None ==> r@ == "new"@,
{
    match id {
        Some(i) => i64_text(i as i64),
        None => String::from_str("new"),
    }
}

/// The session-storage key of a recovery copy: per user (0 when signed
/// out) and per slot.
pub fn draft_storage_key(user_id: Option<i64>, slot: &str) -> (r: String)
    ensures
        r@ == "ygg.note-draft."@ + spec_int_text(
            match user_id {
                Some(u) => u as int,
                None => 0,
            },
        ) + "."@ + slot@,
{
    let uid: i64 = match user_id {
        Some(u) => u,
        None => 0,
    };
    let mut out = String::from_str("ygg.note-draft.");
    let n = i64_text(uid);
    out.append(n.as_str());
    out.append(".");
    out.append(slot);
    out
}

/// What keeping the recovery copy in step does.
#[derive(Debug, PartialEq, Eq, Structural)]
pub enum FlushAction {
    /// A recovery choice is pending: the stored copy is left alone.
    Keep,
    /// There are unsaved changes: the current snapshot is stored.
    Store,
    /// Nothing unsaved: the stored copy is removed.
    Remove,
}

/// Decides how the tab's recovery copy follows the editor.
pub fn flush_action(recovery_pending: bool, unsaved: bool) -> (r: FlushAction)
    ensures
        recovery_pending ==> r == FlushAction::Keep,
        !recovery_pending && unsaved ==> r == FlushAction::Store,
        !recovery_pending && !unsaved ==> r == FlushAction::Remove,
{
    if recovery_pending {
        FlushAction::Keep
    } else if unsaved {
        FlushAction::Store
    } else {
        FlushAction::Remove
    }
}

/// Leaving the page is allowed when nothing is unsaved or the user
/// confirmed.
pub fn may_leave(dirty: bool, confirmed: bool) -> (r: bool)
    ensures
        r == (!dirty || confirmed),
{
    !dirty || confirmed
}

/// Tags joined for the tag box (`tags.join(", ")`).
pub open spec fn join_tags(tags: Seq<Seq<char>>) -> Seq<char>
    decreases tags.len(),
{
    if tags.len() == 0 {
        Seq::empty()
    } else if tags.len() == 1 {
        tags[0]
    } else {
        join_tags(tags.drop_last()) + ", "@ + tags.last()
    }
}

/// The tag box text of a draft.
pub fn tags_text(tags: &Vec<String>) -> (r: String)
    ensures
        r@ == join_tags(tags@.map_values(|t: String| t@)),
{
    let n = tags.len();
    let mut out = String::new();
    let mut i: usize = 0;
    while i < n
        invariant
            n == tags@.len(),
            i <= n,
            out@ == join_tags(tags@.subrange(0, i as int).map_values(|t: String| t@)),
        decreases n - i,
    {
        let ghost before = tags@.subrange(0, i as int).map_values(|t: String| t@);
        if i > 0 {
            out.append(", ");
        }
        out.append(tags[i].as_str());
        proof {
            let after = tags@.subrange(0, i + 1).map_values(|t: String| t@);
            assert(after =~= before.push(tags@[i as int]@));
            assert(after.drop_last() =~= before);
            if i == 0 {
                assert(out@ =~= tags@[0]@);
            }
        }
        i = i + 1;
    }
    proof {
        assert(tags@.subrange(0, n as int) =~= tags@);
    }
    out
}

/// Which editor buttons are enabled.
pub struct EditorButtons {
    pub save: bool,
    pub preview: bool,
    pub publish: bool,
    /// The publish button reads "update the public version" (else
    /// "publish").
    pub publish_updates: bool,
}

/// Button states of the editor: saving and publishing need an idle editor
/// outside the trash without a pending recovery choice; preview needs a
/// saved note.
pub fn editor_buttons(busy: bool, saved: &Option<SavedNote>, recovery_pending: bool) -> (r:
    EditorButtons)
    ensures
        r.save == !(busy || (saved matches Some(n) && n.deleted) || recovery_pending),
        r.preview == !(busy || saved is None || recovery_pending),
        r.publish == !(busy || (saved matches Some(n) && n.deleted) || recovery_pending),
        r.publish_updates == (saved matches Some(n) && n.published_version is Some),
{
    let deleted = match saved {
        Some(n) => n.deleted,
        None => false,
    };
    let published = match saved {
        Some(n) => n.published_version.is_some(),
        None => false,
    };
    let has_saved = saved.is_some();
    EditorButtons {
        save: !(busy || deleted || recovery_pending),
        preview: !(busy || !has_saved || recovery_pending),
        publish: !(busy || deleted || recovery_pending),
        publish_updates: published,
    }
}

/// The quick-capture box submits only when idle, without a pending
/// recovery choice, and with text beyond whitespace.
pub fn quick_submit_allowed(busy: bool, recovery_pending: bool, text: &str) -> (r: bool)
    ensures
        r == (!busy && !recovery_pending && trim_seq(text@).len() > 0),
{
    if busy || recovery_pending {
        return false;
    }
    let t = trim(text);
    t.unicode_len() > 0
}

/// The list filter of the notes page.
pub struct NoteFilter {
    pub kind: Option<NoteKind>,
    pub trash: bool,
    pub query: String,
    pub published: Option<bool>,
    pub knowledge: Option<bool>,
    pub page: i32,
}

/// The tab a filter shows as active.
pub open spec fn filter_tab_spec(f: NoteFilter) -> Seq<char> {
    if f.trash {
        "trash"@
    } else {
        match f.kind {
            Some(NoteKind::Moment) => "moment"@,
            Some(NoteKind::Topic) => "topic"@,
            None => "all"@,
        }
    }
}

impl NoteFilter {
    /// The active tab value.
    pub fn active_tab(&self) -> (r: &'static str)
        ensures
            r@ == filter_tab_spec(*self),
    {
        if self.trash {
            "trash"
        } else {
            match self.kind {
                Some(NoteKind::Moment) => "moment",
                Some(NoteKind::Topic) => "topic",
                None => "all",
            }
        }
    }

    /// A click on a tab: `trash`, `moment`, `topic` or anything else (all);
    /// back to the first page.
    pub fn select_tab(&mut self, value: &str)
        ensures
            final(self).trash == (value@ == "trash"@),
            final(self).kind == (if value@ == "moment"@ {
                Some(NoteKind::Moment)
            } else if value@ == "topic"@ {
                Some(NoteKind::Topic)
            } else {
                None
            }),
            final(self).page == 1,
            final(self).query == old(self).query,
            final(self).published == old(self).published,
            final(self).knowledge == old(self).knowledge,
    {
        self.trash = str_eq(value, "trash");
        self.kind = if str_eq(value, "moment") {
            Some(NoteKind::Moment)
        } else if str_eq(value, "topic") {
            Some(NoteKind::Topic)
        } else {
            None
        };
        self.page = 1;
    }

    /// Submitting the search box applies its text; back to the first page.
    pub fn apply_query(&mut self, query: String)
        ensures
            final(self).query == query,
            final(self).page == 1,
            final(self).trash == old(self).trash,
            final(self).kind == old(self).kind,
            final(self).published == old(self).published,
            final(self).knowledge == old(self).knowledge,
    {
        self.query = query;
        self.page = 1;
    }

    /// Typing in the search box: clearing it drops an applied query at
    /// once; other edits wait for a submit.
    pub fn query_typed(&mut self, typed: &str)
        ensures
            typed@.len() == 0 && old(self).query@.len() > 0 ==> final(self).query@.len() == 0
                && final(self).page == 1,
            !(typed@.len() == 0 && old(self).query@.len() > 0) ==> final(self).query == old(
                self,
            ).query && final(self).page == old(self).page,
            final(self).trash == old(self).trash,
            final(self).kind == old(self).kind,
            final(self).published == old(self).published,
            final(self).knowledge == old(self).knowledge,
    {
        if typed.unicode_len() == 0 && self.query.unicode_len() > 0 {
            self.query = String::new();
            self.page = 1;
        }
    }
}

/// The visibility label of a note in the list.
pub fn note_state_label(deleted: bool, published: bool, in_knowledge: bool) -> (r: String)
    ensures
        r@ == (if deleted {
            "回收站"@
        } else if published {
            "已公开"@
        } else {
            "私密"@
        }) + (if in_knowledge {
            " · 已收录知识库"@
        } else {
            Seq::empty()
        }),
{
    let mut out = if deleted {
        String::from_str("回收站")
    } else if published {
        String::from_str("已公开")
    } else {
        String::from_str("私密")
    };
    let ghost base = out@;
    if in_knowledge {
        out.append(" · 已收录知识库");
    } else {
        proof {
            assert(out@ =~= base + Seq::<char>::empty());
        }
    }
    out
}

/// Moves entry `index` one place up in a notebook's reading order.
pub fn move_up<T>(rows: &mut Vec<T>, index: usize)
    requires
        0 < index < old(rows)@.len(),
    ensures
        final(rows)@ == old(rows)@.update(index as int, old(rows)@[index - 1]).update(
            index - 1,
            old(rows)@[index as int],
        ),
{
    let a = rows.remove(index);
    rows.insert(index - 1, a);
    proof {
        let o = old(rows)@;
        assert(final(rows)@ =~= o.update(index as int, o[index - 1]).update(index - 1, o[index as int]));
    }
}

/// Moves entry `index` one place down in a notebook's reading order.
pub fn move_down<T>(rows: &mut Vec<T>, index: usize)
    requires
        index + 1 < old(rows)@.len(),
    ensures
        final(rows)@ == old(rows)@.update(index as int, old(rows)@[index + 1]).update(
            index + 1,
            old(rows)@[index as int],
        ),
{
    let len = rows.len();
    proof {
        assert(index + 1 < len);
    }
    let j = index + 1;
    let a = rows.remove(index);
    rows.insert(j, a);
    proof {
        let o = old(rows)@;
        assert(final(rows)@ =~= o.update(index as int, o[index + 1]).update(index + 1, o[index as int]));
    }
}

/// A history entry's button for a rendered date: `v<version> · <date> ·
/// 恢复`.
pub fn revision_label_text(version: i32, date: &str) -> (r: String)
    ensures
        r@ == "v"@ + spec_int_text(version as int) + " · "@ + date@ + " · 恢复"@,
{
    let mut out = String::from_str("v");
    let v = i64_text(version as i64);
    out.append(v.as_str());
    out.append(" · ");
    out.append(date);
    out.append(" · 恢复");
    out
}

/// A history entry's button, its time to the minute (`MM-DD HH:MM`);
/// `None` only for a time chrono cannot represent.
pub fn revision_label(version: i32, created_at: i64) -> (r: Option<String>)
    ensures
        r matches Some(s) ==> s@ == "v"@ + spec_int_text(version as int) + " · "@ + utc_format(
            created_at as int,
            "%m-%d %H:%M"@,
        ) + " · 恢复"@,
        in_range(created_at as int) ==> r is Some,
{
    match utc_text(created_at, "%m-%d %H:%M") {
        Some(d) => Some(revision_label_text(version, d.as_str())),
        None => None,
    }
}

/// The editor's public-state note.
pub fn public_state_text(published_version: Option<i32>) -> (r: String)
    ensures
        published_version matches Some(v) ==> r@ == "已公开 v"@ + spec_int_text(v as int)
            + "，草稿修改不会自动发布。"@,
        published_version is None ==> r@ == "仅自己可见。"@,
{
    match published_version {
        Some(v) => {
            let mut out = String::from_str("已公开 v");
            let t = i64_text(v as i64);
            out.append(t.as_str());
            out.append("，草稿修改不会自动发布。");
            out
        },
        None => String::from_str("仅自己可见。"),
    }
}

/// The recovery offer when an editor opens: the tab's stored copy, unless
/// it has the same contents as the editor (then there is nothing to
/// recover).
pub fn recovery_offer(stored: Option<NoteDraft>, current: &NoteDraft) -> (r: Option<NoteDraft>)
    ensures
        stored is None ==> r is None,
        stored matches Some(d) ==> (if d@ == current@ {
            r is None
        } else {
            r matches Some(x) && x@ == d@
        }),
{
    match stored {
        Some(d) => {
            if d.same_as(current) {
                None
            } else {
                Some(d)
            }
        },
        None => None,
    }
}

/// A notebook as its form reads it.
pub struct Notebook {
    pub id: i32,
    pub title: String,
    pub description: String,
    pub is_public: bool,
    pub archived: bool,
}

/// What saving a notebook sends (no id for a new one).
pub struct NotebookInput {
    pub id: Option<i32>,
    pub title: String,
    pub description: String,
    pub is_public: bool,
}

/// The notebook form: new (empty, private) or seeded from a notebook. An
/// archived notebook's public switch is disabled.
pub struct NotebookForm {
    pub id: Option<i32>,
    pub archived: bool,
    pub title: String,
    pub description: String,
    pub is_public: bool,
    pub busy: bool,
}

impl NotebookForm {
    /// The form for a new notebook, or for editing `book`.
    pub fn open(book: &Option<Notebook>) -> (r: NotebookForm)
        ensures
            !r.busy,
            book is None ==> r.id is None && !r.archived && r.title@.len() == 0
                && r.description@.len() == 0 && !r.is_public,
            book matches Some(b) ==> r.id == Some(b.id) && r.archived == b.archived && r.title@
                == b.title@ && r.description@ == b.description@ && r.is_public == b.is_public,
    {
        match book {
            Some(b) => NotebookForm {
                id: Some(b.id),
                archived: b.archived,
                title: b.title.clone(),
                description: b.description.clone(),
                is_public: b.is_public,
                busy: false,
            },
            None => NotebookForm {
                id: None,
                archived: false,
                title: String::new(),
                description: String::new(),
                is_public: false,
                busy: false,
            },
        }
    }

    /// The public switch is usable unless the notebook is archived.
    pub fn public_editable(&self) -> (r: bool)
        ensures
            r == !self.archived,
    {
        !self.archived
    }

    /// Submitting: ignored while a save runs; otherwise the form's values
    /// go out as they are and the form is busy.
    pub fn submit(&mut self) -> (r: Option<NotebookInput>)
        ensures
            old(self).busy ==> r is None && *final(self) == *old(self),
            !old(self).busy ==> final(self).busy && (r matches Some(input) && input.id == old(
                self,
            ).id && input.title@ == old(self).title@ && input.description@ == old(self).description@
                && input.is_public == old(self).is_public),
    {
        if self.busy {
            return None;
        }
        self.busy = true;
        Some(NotebookInput {
            id: self.id,
            title: self.title.clone(),
            description: self.description.clone(),
            is_public: self.is_public,
        })
    }

    /// The save answered (the page closes the form on success; the error is
    /// shown otherwise).
    pub fn answered(&mut self)
        ensures
            !final(self).busy,
            final(self).id == old(self).id,
            final(self).archived == old(self).archived,
            final(self).title == old(self).title,
            final(self).description == old(self).description,
            final(self).is_public == old(self).is_public,
    {
        self.busy = false;
    }
}

} // verus!
