//! The all-posts page: the title search, the rows being deleted or
//! re-rendered, what a delete's answer does, and the cache rebuild's
//! report.

use vstd::prelude::*;

use std::collections::HashSet;

use crate::text::{spec_decimal, trim, trim_seq, u64_text};

verus! {

/// Posts per page.
pub const POSTS_PER_PAGE: i32 = 20;

/// The search box and the committed query (empty: no search), with the
/// page number.
pub struct PostSearch {
    pub input: String,
    pub query: String,
    pub page: i32,
}

impl PostSearch {
    /// No search, first page.
    pub fn new() -> (r: PostSearch)
        ensures
            r.input@.len() == 0,
            r.query@.len() == 0,
            r.page == 1,
    {
        PostSearch { input: String::new(), query: String::new(), page: 1 }
    }

    /// Enter or "搜索": the trimmed input becomes the query, from the
    /// first page.
    pub fn submit(&mut self)
        ensures
            final(self).query@ == trim_seq(old(self).input@),
            final(self).input == old(self).input,
            final(self).page == 1,
    {
        self.query = trim(self.input.as_str());
        self.page = 1;
    }

    /// "清除": no search, first page.
    pub fn clear(&mut self)
        ensures
            final(self).input@.len() == 0,
            final(self).query@.len() == 0,
            final(self).page == 1,
    {
        self.input = String::new();
        self.query = String::new();
        self.page = 1;
    }

    /// Showing search results.
    pub fn is_searching(&self) -> (r: bool)
        ensures
            r == (self.query@.len() > 0),
    {
        self.query.unicode_len() > 0
    }

    /// The title filter sent with the list request.
    pub fn title_filter(&self) -> (r: Option<String>)
        ensures
            self.query@.len() == 0 ==> r is None,
            self.query@.len() > 0 ==> (r matches Some(q) && q@ == self.query@),
    {
        if self.query.unicode_len() == 0 {
            None
        } else {
            Some(self.query.clone())
        }
    }
}

/// The ids of rows with a request in flight (deletes or re-renders):
/// several may run at once.
pub struct BusyIds {
    pub ids: HashSet<i64>,
}

impl BusyIds {
    /// Nothing in flight.
    pub fn new() -> (r: BusyIds)
        ensures
            r.ids@ == Set::<i64>::empty(),
    {
        BusyIds { ids: HashSet::new() }
    }

    /// Whether a row's request is in flight.
    pub fn contains(&self, id: i64) -> (r: bool)
        ensures
            r == self.ids@.contains(id),
    {
        self.ids.contains(&id)
    }

    /// A request for `id` starts.
    pub fn insert(&mut self, id: i64)
        ensures
            final(self).ids@ == old(self).ids@.insert(id),
    {
        self.ids.insert(id);
    }

    /// The request for `id` ended.
    pub fn remove(&mut self, id: i64)
        ensures
            final(self).ids@ == old(self).ids@.remove(id),
    {
        self.ids.remove(&id);
    }
}

/// A delete's answer.
pub enum DeleteAnswer {
    /// The post was deleted.
    Deleted,
    /// The server refused, with its message.
    Refused(String),
    /// The request failed.
    Failed,
}

/// The alert a delete's answer raises, if any: the refusal's message, or
/// "删除失败" when the request failed. A deletion raises none (the row
/// leaves the page instead).
pub fn delete_alert(answer: &DeleteAnswer) -> (r: Option<String>)
    ensures
        *answer is Deleted ==> r is None,
        *answer matches DeleteAnswer::Refused(m) ==> (r matches Some(a) && a@ == m@),
        *answer is Failed ==> (r matches Some(a) && a@ == "删除失败"@),
{
    match answer {
        DeleteAnswer::Deleted => None,
        DeleteAnswer::Refused(m) => Some(m.clone()),
        DeleteAnswer::Failed => Some(String::from_str("删除失败")),
    }
}

/// The cache rebuild's report.
pub open spec fn rebuild_report_spec(rebuilt: u64, failed: u64, first_error: Option<Seq<char>>) -> Seq<
    char,
> {
    if failed > 0 {
        "已重建 "@ + spec_decimal(rebuilt as nat) + " 篇，失败 "@ + spec_decimal(failed as nat) + " 篇"@
            + match first_error {
            Some(e) => "\n"@ + e,
            None => Seq::empty(),
        }
    } else {
        "已重建 "@ + spec_decimal(rebuilt as nat) + " 篇文章"@
    }
}

/// The message after "重建内容" / "重建全部": the counts, and the first
/// error when some failed.
pub fn rebuild_report(rebuilt: u64, failed: u64, errors: &Vec<String>) -> (r: String)
    ensures
        r@ == rebuild_report_spec(
            rebuilt,
            failed,
            if errors@.len() > 0 {
                Some(errors@[0]@)
            } else {
                None
            },
        ),
{
    let r = u64_text(rebuilt);
    if failed > 0 {
        let mut msg = String::from_str("已重建 ");
        msg.append(r.as_str());
        msg.append(" 篇，失败 ");
        let f = u64_text(failed);
        msg.append(f.as_str());
        msg.append(" 篇");
        let ghost base = msg@;
        if errors.len() > 0 {
            msg.append("\n");
            msg.append(errors[0].as_str());
            proof {
                assert(msg@ =~= base + ("\n"@ + errors@[0]@));
            }
        } else {
            proof {
                assert(msg@ =~= base + Seq::<char>::empty());
            }
        }
        msg
    } else {
        let mut msg = String::from_str("已重建 ");
        msg.append(r.as_str());
        msg.append(" 篇文章");
        msg
    }
}

/// The message when the rebuild request failed.
pub fn rebuild_failed(e: &str) -> (r: String)
    ensures
        r@ == "失败: "@ + e@,
{
    let mut m = String::from_str("失败: ");
    m.append(e);
    m
}

/// What the list shows.
#[derive(Clone, Copy, Debug, PartialEq, Eq, Structural)]
pub enum PostsBody {
    Error,
    Skeleton,
    /// No post matches the search.
    NoMatch,
    /// No post at all (with a "写文章" action).
    NoPosts,
    Table,
}

/// The list body: the error; the skeleton while loading with nothing
/// shown; an empty state that depends on whether a search is active; else
/// the table.
pub fn posts_body(error: bool, loading: bool, empty: bool, searching: bool) -> (r: PostsBody)
    ensures
        error ==> r == PostsBody::Error,
        !error && loading && empty ==> r == PostsBody::Skeleton,
        !error && !loading && empty && searching ==> r == PostsBody::NoMatch,
        !error && !loading && empty && !searching ==> r == PostsBody::NoPosts,
        !error && !empty ==> r == PostsBody::Table,
{
    if error {
        PostsBody::Error
    } else if loading && empty {
        PostsBody::Skeleton
    } else if empty {
        if searching {
            PostsBody::NoMatch
        } else {
            PostsBody::NoPosts
        }
    } else {
        PostsBody::Table
    }
}

/// Where a title links: drafts to the admin preview (their public page
/// does not exist), others to the public page.
pub fn title_link(is_draft: bool, slug: &str) -> (r: String)
    ensures
        is_draft ==> r@ == "/admin/preview/"@ + slug@,
        !is_draft ==> r@ == "/post/"@ + slug@,
{
    let mut out = if is_draft {
        String::from_str("/admin/preview/")
    } else {
        String::from_str("/post/")
    };
    out.append(slug);
    out
}

/// The slug the preview loads: the route's, or the component's own when
/// the route is momentarily another page.
pub fn preview_slug(route_slug: &Option<String>, prop_slug: &str) -> (r: String)
    ensures
        route_slug matches Some(s) ==> r@ == s@,
        route_slug is None ==> r@ == prop_slug@,
{
    match route_slug {
        Some(s) => s.clone(),
        None => String::from_str(prop_slug),
    }
}

/// A preview answer is applied only while the page still previews the
/// slug it was requested for (a slow answer for an earlier post is
/// dropped).
pub fn preview_answer_lands(route_slug: &Option<String>, requested: &str) -> (r: bool)
    ensures
        r == (route_slug matches Some(s) && s@ == requested@),
{
    match route_slug {
        Some(s) => crate::text::str_eq(s.as_str(), requested),
        None => false,
    }
}

/// What the preview page shows.
#[derive(Clone, Copy, Debug, PartialEq, Eq, Structural)]
pub enum PreviewView {
    /// Still loading.
    Skeleton,
    /// Not found, or the request failed (one view for both).
    NotFound,
    /// The post.
    Article,
}

/// The preview page: the skeleton until an answer landed, then the post
/// or the not-found note.
pub fn preview_view(answer: Option<bool>) -> (r: PreviewView)
    ensures
        answer is None ==> r == PreviewView::Skeleton,
        answer == Some(false) ==> r == PreviewView::NotFound,
        answer == Some(true) ==> r == PreviewView::Article,
{
    match answer {
        None => PreviewView::Skeleton,
        Some(false) => PreviewView::NotFound,
        Some(true) => PreviewView::Article,
    }
}

} // verus!
