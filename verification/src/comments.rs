//! The comment moderation page: the status filter read from the address,
//! row actions and their optimistic effect on the page, batch actions,
//! and the row's texts (content preview, date, links).

use vstd::prelude::*;
use vstd::string::StringSliceAdditionalSpecFns;

use crate::dates::{in_range, utc_format, utc_text};
use crate::listing::{row_ids, Listing, Row};
use crate::text::{i64_text, spec_int_text};

verus! {

/// Comments per page.
pub const COMMENTS_PER_PAGE: i32 = 20;

/// A comment's moderation status.
#[derive(Clone, Copy, Debug, PartialEq, Eq, Structural)]
pub enum CommentStatus {
    Pending,
    Approved,
    Spam,
    Trash,
}

/// A comment as the moderation table shows it (its id is the row's).
pub struct AdminComment {
    pub author_name: String,
    pub author_email: String,
    pub avatar_url: String,
    pub content_md: String,
    pub post_title: String,
    pub post_slug: String,
    pub status: CommentStatus,
    /// Seconds since the epoch (UTC).
    pub created_at: i64,
}

// ---------------------------------------------------------------------
// The status filter in the address (`?status=...`).

/// `s` without its leading `?` characters.
pub open spec fn strip_question_marks(s: Seq<char>) -> Seq<char>
    decreases s.len(),
{
    if s.len() > 0 && s[0] == '?' {
        strip_question_marks(s.drop_first())
    } else {
        s
    }
}

/// The length of the first `&`-separated pair of `s`.
pub open spec fn pair_len(s: Seq<char>) -> nat
    decreases s.len(),
{
    if s.len() == 0 || s[0] == '&' {
        0
    } else {
        1 + pair_len(s.drop_first())
    }
}

/// The first pair ends at the first `&` (or the end).
pub proof fn lemma_pair_len_bound(s: Seq<char>)
    ensures
        pair_len(s) <= s.len(),
        pair_len(s) < s.len() ==> s[pair_len(s) as int] == '&',
        forall|k: int| 0 <= k < pair_len(s) ==> s[k] != '&',
    decreases s.len(),
{
    if s.len() > 0 && s[0] != '&' {
        lemma_pair_len_bound(s.drop_first());
        assert forall|k: int| 0 <= k < pair_len(s) implies s[k] != '&' by {
            if k > 0 {
                assert(s[k] == s.drop_first()[k - 1]);
            }
        }
    }
}

/// The pair starts with `status=`.
pub open spec fn is_status_pair(p: Seq<char>) -> bool {
    p.len() >= 7 && p.subrange(0, 7) == "status="@
}

/// The value of the first `status=` pair of a query string.
pub open spec fn find_status(s: Seq<char>) -> Option<Seq<char>>
    decreases s.len(),
{
    let e = pair_len(s) as int;
    let p = s.subrange(0, e);
    if is_status_pair(p) {
        Some(p.subrange(7, e))
    } else if e < s.len() {
        proof {
            lemma_pair_len_bound(s);
        }
        find_status(s.subrange(e + 1, s.len() as int))
    } else {
        None
    }
}

/// The status filter of the address's query string: the value of its
/// first `status=` pair, else empty (all comments).
pub open spec fn status_filter_spec(search: Seq<char>) -> Seq<char> {
    match find_status(strip_question_marks(search)) {
        Some(v) => v,
        None => Seq::empty(),
    }
}

fn chars_of(s: &str) -> (r: Vec<char>)
    ensures
        r@ == s@,
{
    let n = s.unicode_len();
    let mut out: Vec<char> = Vec::new();
    let mut i: usize = 0;
    while i < n
        invariant
            n == s@.len(),
            i <= n,
            out@ == s@.subrange(0, i as int),
        decreases n - i,
    {
        out.push(s.get_char(i));
        proof {
            assert(out@ =~= s@.subrange(0, i + 1));
        }
        i = i + 1;
    }
    proof {
        assert(s@.subrange(0, n as int) =~= s@);
    }
    out
}

fn string_of(cs: &Vec<char>, from: usize, to: usize) -> (r: String)
    requires
        from <= to <= cs@.len(),
    ensures
        r@ == cs@.subrange(from as int, to as int),
{
    let mut v: Vec<char> = Vec::new();
    let mut i: usize = from;
    while i < to
        invariant
            from <= i <= to,
            to <= cs@.len(),
            v@ == cs@.subrange(from as int, i as int),
        decreases to - i,
    {
        v.push(cs[i]);
        proof {
            assert(v@ =~= cs@.subrange(from as int, i + 1));
        }
        i = i + 1;
    }
    crate::text::string_from_chars(&v)
}

/// The status filter the page starts with, from the address's query
/// string (`location.search`).
pub fn status_filter_from_search(search: &str) -> (r: String)
    ensures
        r@ == status_filter_spec(search@),
{
    let cs = chars_of(search);
    let n = cs.len();
    let mut start: usize = 0;
    proof {
        assert(cs@.subrange(0, n as int) =~= cs@);
    }
    while start < n && cs[start] == '?'
        invariant
            start <= n,
            n == cs@.len(),
            strip_question_marks(cs@) == strip_question_marks(cs@.subrange(start as int, n as int)),
        decreases n - start,
    {
        proof {
            assert(cs@.subrange(start as int, n as int).drop_first() =~= cs@.subrange(start + 1, n as int));
        }
        start = start + 1;
    }
    let ghost stripped = strip_question_marks(search@);
    proof {
        let t = cs@.subrange(start as int, n as int);
        assert(t.len() == 0 || t[0] != '?');
        assert(strip_question_marks(t) == t);
        assert(stripped == t);
    }
    loop
        invariant
            start <= n,
            n == cs@.len(),
            cs@ == search@,
            stripped == strip_question_marks(search@),
            find_status(stripped) == find_status(cs@.subrange(start as int, n as int)),
        decreases n - start,
    {
        let ghost rest = cs@.subrange(start as int, n as int);
        let mut end: usize = start;
        while end < n && cs[end] != '&'
            invariant
                start <= end <= n,
                n == cs@.len(),
                rest == cs@.subrange(start as int, n as int),
                pair_len(rest) == (end - start) + pair_len(cs@.subrange(end as int, n as int)),
            decreases n - end,
        {
            proof {
                assert(cs@.subrange(end as int, n as int).drop_first() =~= cs@.subrange(end + 1, n as int));
            }
            end = end + 1;
        }
        proof {
            let t = cs@.subrange(end as int, n as int);
            assert(t.len() == 0 || t[0] == '&');
            assert(pair_len(t) == 0);
            assert(pair_len(rest) == end - start);
            assert(rest.subrange(0, (end - start) as int) =~= cs@.subrange(start as int, end as int));
        }
        let is_status = end - start >= 7 && cs[start] == 's' && cs[start + 1] == 't' && cs[start + 2]
            == 'a' && cs[start + 3] == 't' && cs[start + 4] == 'u' && cs[start + 5] == 's'
            && cs[start + 6] == '=';
        proof {
            reveal_strlit("status=");
            let p = cs@.subrange(start as int, end as int);
            let lit = seq!['s', 't', 'a', 't', 'u', 's', '='];
            assert("status="@ =~= lit);
            if end - start >= 7 {
                if is_status {
                    assert(p.subrange(0, 7) =~= lit);
                } else {
                    if p.subrange(0, 7) == lit {
                        assert(p.subrange(0, 7)[0] == 's');
                        assert(p.subrange(0, 7)[1] == 't');
                        assert(p.subrange(0, 7)[2] == 'a');
                        assert(p.subrange(0, 7)[3] == 't');
                        assert(p.subrange(0, 7)[4] == 'u');
                        assert(p.subrange(0, 7)[5] == 's');
                        assert(p.subrange(0, 7)[6] == '=');
                    }
                }
            }
            assert(is_status == is_status_pair(p));
        }
        if is_status {
            let v = string_of(&cs, start + 7, end);
            proof {
                let p = cs@.subrange(start as int, end as int);
                assert(p.subrange(7, (end - start) as int) =~= cs@.subrange(start + 7, end as int));
                assert(find_status(rest) == Some(p.subrange(7, (end - start) as int)));
            }
            return v;
        }
        if end == n {
            proof {
                assert(find_status(rest) is None);
            }
            return String::new();
        }
        proof {
            assert(rest.subrange((end - start) + 1, rest.len() as int) =~= cs@.subrange(
                end + 1,
                n as int,
            ));
        }
        start = end + 1;
    }
}

/// The `status` argument of the list request: none for "all".
pub fn status_param(filter: &str) -> (r: Option<String>)
    ensures
        filter@.len() == 0 ==> r is None,
        filter@.len() > 0 ==> (r matches Some(s) && s@ == filter@),
{
    if filter.unicode_len() == 0 {
        None
    } else {
        Some(String::from_str(filter))
    }
}

// ---------------------------------------------------------------------
// Rows.

/// The status pill of a comment.
pub open spec fn status_label_spec(s: CommentStatus) -> Seq<char> {
    match s {
        CommentStatus::Approved => "已通过"@,
        CommentStatus::Pending => "待审核"@,
        CommentStatus::Spam => "垃圾"@,
        CommentStatus::Trash => "已删除"@,
    }
}

/// The status pill of a comment.
pub fn status_label(s: CommentStatus) -> (r: &'static str)
    ensures
        r@ == status_label_spec(s),
{
    match s {
        CommentStatus::Approved => "已通过",
        CommentStatus::Pending => "待审核",
        CommentStatus::Spam => "垃圾",
        CommentStatus::Trash => "已删除",
    }
}

/// The status value the batch endpoint takes.
pub fn status_key(s: CommentStatus) -> (r: &'static str)
    ensures
        s == CommentStatus::Approved ==> r@ == "approved"@,
        s == CommentStatus::Pending ==> r@ == "pending"@,
        s == CommentStatus::Spam ==> r@ == "spam"@,
        s == CommentStatus::Trash ==> r@ == "trash"@,
{
    match s {
        CommentStatus::Approved => "approved",
        CommentStatus::Pending => "pending",
        CommentStatus::Spam => "spam",
        CommentStatus::Trash => "trash",
    }
}

/// A row's action buttons: approve, spam, delete; each hidden when the
/// comment already has that status.
pub fn row_actions(s: CommentStatus) -> (r: (bool, bool, bool))
    ensures
        r.0 == (s != CommentStatus::Approved),
        r.1 == (s != CommentStatus::Spam),
        r.2 == (s != CommentStatus::Trash),
{
    (s != CommentStatus::Approved, s != CommentStatus::Spam, s != CommentStatus::Trash)
}

/// The first char boundary at or after byte `i` (the end when past it).
pub open spec fn ceil_boundary(b: Seq<u8>, i: int) -> int
    decreases b.len() - i,
{
    if i >= b.len() {
        b.len() as int
    } else if vstd::utf8::is_char_boundary(b, i) {
        i
    } else {
        ceil_boundary(b, i + 1)
    }
}

/// The content preview: over 100 bytes it is cut at the first char
/// boundary from byte 100 on, and `...` appended.
pub open spec fn preview_spec(s: &str) -> Seq<char> {
    if s.spec_bytes().len() > 100 {
        vstd::utf8::decode_utf8(s.spec_bytes().subrange(0, ceil_boundary(s.spec_bytes(), 100)))
            + "..."@
    } else {
        s@
    }
}

/// The content preview of a row.
pub fn comment_preview(content: &str) -> (r: String)
    ensures
        r@ == preview_spec(content),
{
    proof {
        vstd::utf8::encode_utf8_valid_utf8(content@);
        vstd::utf8::is_char_boundary_start_end_of_seq(content.spec_bytes());
    }
    let bytes = content.as_bytes();
    let n = bytes.len();
    if n > 100 {
        let mut k: usize = 100;
        while k < n && !content.is_char_boundary(k)
            invariant
                100 <= k <= n,
                n == content.spec_bytes().len(),
                vstd::utf8::valid_utf8(content.spec_bytes()),
                vstd::utf8::is_char_boundary(content.spec_bytes(), n as int),
                ceil_boundary(content.spec_bytes(), 100) == ceil_boundary(content.spec_bytes(), k as int),
            decreases n - k,
        {
            k = k + 1;
        }
        let (head, _) = content.split_at(k);
        proof {
            vstd::utf8::encode_utf8_decode_utf8(head@);
        }
        let mut out = String::from_str(head);
        out.append("...");
        out
    } else {
        String::from_str(content)
    }
}

/// The page subtitle.
pub fn comments_subtitle(total: i64) -> (r: String)
    ensures
        r@ == "所有文章评论 ("@ + spec_int_text(total as int) + ") · 审核读者互动与拦截垃圾内容"@,
{
    let mut out = String::from_str("所有文章评论 (");
    let t = i64_text(total);
    out.append(t.as_str());
    out.append(") · 审核读者互动与拦截垃圾内容");
    out
}

/// The link to the comment's post.
pub fn post_link(slug: &str) -> (r: String)
    ensures
        r@ == "/post/"@ + slug@,
{
    let mut out = String::from_str("/post/");
    out.append(slug);
    out
}

/// The avatar a row shows: none for an empty URL.
pub fn avatar_of(url: &str) -> (r: Option<String>)
    ensures
        url@.len() == 0 ==> r is None,
        url@.len() > 0 ==> (r matches Some(u) && u@ == url@),
{
    if url.unicode_len() == 0 {
        None
    } else {
        Some(String::from_str(url))
    }
}

/// The row's date (`None` only for a timestamp chrono cannot represent).
pub fn comment_date(c: &AdminComment) -> (r: Option<String>)
    ensures
        r matches Some(s) ==> s@ == utc_format(c.created_at as int, "%Y-%m-%d"@),
        in_range(c.created_at as int) ==> r is Some,
{
    utc_text(c.created_at, "%Y-%m-%d")
}

/// The staggered entry delay of the `idx`-th row, 35 ms apart.
pub fn row_delay(idx: u32) -> (r: u32)
    requires
        idx * 35 <= u32::MAX,
    ensures
        r == idx * 35,
{
    idx * 35
}

/// What the page's body shows.
#[derive(Clone, Copy, Debug, PartialEq, Eq, Structural)]
pub enum CommentsBody {
    Error,
    Skeleton,
    Empty,
    Table,
}

/// The body: the error; the skeleton while loading with nothing shown;
/// the empty state; else the table.
pub fn comments_body(error: bool, loading: bool, empty: bool) -> (r: CommentsBody)
    ensures
        error ==> r == CommentsBody::Error,
        !error && loading && empty ==> r == CommentsBody::Skeleton,
        !error && !loading && empty ==> r == CommentsBody::Empty,
        !error && !empty ==> r == CommentsBody::Table,
{
    if error {
        CommentsBody::Error
    } else if loading && empty {
        CommentsBody::Skeleton
    } else if empty {
        CommentsBody::Empty
    } else {
        CommentsBody::Table
    }
}

// ---------------------------------------------------------------------
// Optimistic updates of the page.

/// `rows` with the status of the comments whose id is in `ids` replaced.
pub open spec fn with_status(rows: Seq<Row<AdminComment>>, ids: Set<i64>, s: CommentStatus) -> Seq<
    Row<AdminComment>,
> {
    rows.map_values(
        |r: Row<AdminComment>|
            if ids.contains(r.id) {
                Row { id: r.id, item: AdminComment { status: s, ..r.item } }
            } else {
                r
            },
    )
}

impl Listing<AdminComment> {
    /// A row action (approve, spam): the first row of that id takes the
    /// new status.
    pub fn set_status(&mut self, id: i64, s: CommentStatus)
        ensures
            final(self).total == old(self).total,
            final(self).selected == old(self).selected,
            final(self).rows@.len() == old(self).rows@.len(),
            (forall|k: int| 0 <= k < old(self).rows@.len() ==> old(self).rows@[k].id != id)
                ==> final(self).rows@ == old(self).rows@,
            (exists|k: int| 0 <= k < old(self).rows@.len() && old(self).rows@[k].id == id)
                ==> (exists|i: int|
                0 <= i < old(self).rows@.len() && old(self).rows@[i].id == id && (forall|k: int|
                    0 <= k < i ==> old(self).rows@[k].id != id) && final(self).rows@ == old(self).rows@.update(
                    i,
                    Row { id, item: AdminComment { status: s, ..old(self).rows@[i].item } },
                )),
    {
        let n = self.rows.len();
        let mut i: usize = 0;
        while i < n
            invariant
                n == self.rows@.len(),
                i <= n,
                self.rows == old(self).rows,
                self.total == old(self).total,
                self.selected == old(self).selected,
                forall|k: int| 0 <= k < i ==> self.rows@[k].id != id,
            decreases n - i,
        {
            if self.rows[i].id == id {
                let mut row = self.rows.remove(i);
                row.item.status = s;
                self.rows.insert(i, row);
                proof {
                    assert(self.rows@ =~= old(self).rows@.update(
                        i as int,
                        Row { id, item: AdminComment { status: s, ..old(self).rows@[i as int].item } },
                    ));
                }
                return;
            }
            i = i + 1;
        }
    }

    /// "Batch approve" / "batch spam": the selected comments take the new
    /// status and the selection is cleared. With distinct row ids (a page
    /// of the server's list), exactly the selected rows change.
    pub fn batch_set_status(&mut self, s: CommentStatus) -> (ids: Vec<i64>)
        ensures
            ids@.to_set() == old(self).selected@,
            ids@.no_duplicates(),
            final(self).selected@ == Set::<i64>::empty(),
            final(self).total == old(self).total,
            final(self).rows@.len() == old(self).rows@.len(),
            row_ids(old(self).rows@).no_duplicates() ==> final(self).rows@ == with_status(
                old(self).rows@,
                old(self).selected@,
                s,
            ),
    {
        let ids = self.take_selection();
        let ghost rows0 = self.rows@;
        let n = ids.len();
        let mut i: usize = 0;
        proof {
            assert(rows0 =~= with_status(rows0, ids@.subrange(0, 0).to_set(), s));
        }
        while i < n
            invariant
                n == ids@.len(),
                i <= n,
                ids@.to_set() == old(self).selected@,
                ids@.no_duplicates(),
                rows0 == old(self).rows@,
                self.selected@ == Set::<i64>::empty(),
                self.total == old(self).total,
                self.rows@.len() == rows0.len(),
                forall|k: int| 0 <= k < rows0.len() ==> #[trigger] self.rows@[k].id == rows0[k].id,
                row_ids(rows0).no_duplicates() ==> self.rows@ == with_status(
                    rows0,
                    ids@.subrange(0, i as int).to_set(),
                    s,
                ),
            decreases n - i,
        {
            let id = ids[i];
            let ghost before = self.rows@;
            self.set_status(id, s);
            proof {
                assert(ids@.subrange(0, i + 1) =~= ids@.subrange(0, i as int).push(id));
                ids@.subrange(0, i as int).lemma_push_to_set_commute(id);
                let done = ids@.subrange(0, i as int).to_set();
                if exists|k: int| 0 <= k < before.len() && before[k].id == id {
                    let j = choose|j: int|
                        0 <= j < before.len() && before[j].id == id && (forall|k: int|
                            0 <= k < j ==> before[k].id != id) && self.rows@ == before.update(
                            j,
                            Row { id, item: AdminComment { status: s, ..before[j].item } },
                        );
                    assert forall|k: int| 0 <= k < rows0.len() implies #[trigger] self.rows@[k].id
                        == rows0[k].id by {
                        if k != j {
                            assert(self.rows@[k] == before[k]);
                        }
                    }
                    if row_ids(rows0).no_duplicates() {
                        assert forall|k: int| 0 <= k < rows0.len() implies self.rows@[k] == with_status(
                            rows0,
                            done.insert(id),
                            s,
                        )[k] by {
                            assert(row_ids(rows0)[k] == rows0[k].id);
                            assert(row_ids(rows0)[j] == rows0[j].id);
                            if k == j {
                                assert(before[j] == with_status(rows0, done, s)[j]);
                            } else {
                                assert(self.rows@[k] == before[k]);
                                assert(before[k] == with_status(rows0, done, s)[k]);
                                assert(rows0[k].id != id);
                            }
                        }
                        assert(self.rows@ =~= with_status(rows0, done.insert(id), s));
                    }
                } else {
                    if row_ids(rows0).no_duplicates() {
                        assert forall|k: int| 0 <= k < rows0.len() implies self.rows@[k] == with_status(
                            rows0,
                            done.insert(id),
                            s,
                        )[k] by {
                            assert(before[k].id != id);
                            assert(before[k] == with_status(rows0, done, s)[k]);
                        }
                        assert(self.rows@ =~= with_status(rows0, done.insert(id), s));
                    }
                }
            }
            i = i + 1;
        }
        proof {
            assert(ids@.subrange(0, n as int) =~= ids@);
        }
        ids
    }
}

proof fn lemma_pair_len_whole(s: Seq<char>)
    requires
        forall|k: int| 0 <= k < s.len() ==> s[k] != '&',
    ensures
        pair_len(s) == s.len(),
    decreases s.len(),
{
    if s.len() > 0 {
        let t = s.drop_first();
        assert forall|k: int| 0 <= k < t.len() implies t[k] != '&' by {
            assert(t[k] == s[k + 1]);
        }
        lemma_pair_len_whole(t);
    }
}

/// An address whose query is the single pair `status=<v>` (with `v` free
/// of `&`) opens the page filtered by `v`.
pub proof fn lemma_single_status_pair(v: Seq<char>)
    requires
        forall|k: int| 0 <= k < v.len() ==> v[k] != '&',
    ensures
        status_filter_spec("?status="@ + v) == v,
{
    reveal_strlit("?status=");
    reveal_strlit("status=");
    let lit = "status="@;
    let q = "?status="@ + v;
    let p = lit + v;
    assert(q.drop_first() =~= p);
    assert(q[0] == '?');
    assert(p[0] == 's');
    assert(strip_question_marks(p) == p);
    assert(strip_question_marks(q) == p);
    assert forall|k: int| 0 <= k < p.len() implies p[k] != '&' by {
        if k >= 7 {
            assert(p[k] == v[k - 7]);
        }
    }
    lemma_pair_len_whole(p);
    assert(p.subrange(0, p.len() as int) =~= p);
    assert(p.subrange(0, 7) =~= lit);
    assert(p.subrange(7, p.len() as int) =~= v);
}

} // verus!
