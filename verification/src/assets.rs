//! The asset library page: query mapping, the page's multi-selection of
//! unreferenced images, the operation banner, the reference popover, and
//! the texts of its feedback.

use vstd::prelude::*;

use crate::listing::{next_page, prev_page};
use crate::text::{i64_text, spec_decimal, spec_int_text, str_eq, u64_text};

verus! {

/// Assets shown per page (the server pages by the same count).
pub const ASSETS_PER_PAGE: i32 = 60;

/// Which assets the grid lists.
#[derive(Clone, Copy, Debug, PartialEq, Eq, Structural)]
pub enum AssetFilter {
    All,
    Used,
    Orphan,
}

/// The grid's order.
#[derive(Clone, Copy, Debug, PartialEq, Eq, Structural)]
pub enum AssetSort {
    CreatedDesc,
    SizeDesc,
}

/// The filter a tab key selects: `used`, `orphan`, anything else all.
pub fn filter_from_key(key: &str) -> (r: AssetFilter)
    ensures
        key@ == "used"@ ==> r == AssetFilter::Used,
        key@ == "orphan"@ ==> r == AssetFilter::Orphan,
        key@ != "used"@ && key@ != "orphan"@ ==> r == AssetFilter::All,
{
    proof {
        reveal_strlit("used");
        reveal_strlit("orphan");
        assert("used"@.len() != "orphan"@.len());
    }
    if str_eq(key, "used") {
        AssetFilter::Used
    } else if str_eq(key, "orphan") {
        AssetFilter::Orphan
    } else {
        AssetFilter::All
    }
}

/// The order a sort key selects: `size` is largest first, anything else
/// newest first.
pub fn sort_from_key(key: &str) -> (r: AssetSort)
    ensures
        key@ == "size"@ ==> r == AssetSort::SizeDesc,
        key@ != "size"@ ==> r == AssetSort::CreatedDesc,
{
    if str_eq(key, "size") {
        AssetSort::SizeDesc
    } else {
        AssetSort::CreatedDesc
    }
}

/// The key of a loaded view, `filter|query|sort|page`: a reload of the
/// same view keeps it, so the grid is diffed instead of replayed.
pub fn view_key(filter: &str, query: &str, sort: &str, page: i32) -> (r: String)
    ensures
        r@ == filter@ + "|"@ + query@ + "|"@ + sort@ + "|"@ + spec_int_text(page as int),
{
    let mut out = String::from_str(filter);
    out.append("|");
    out.append(query);
    out.append("|");
    out.append(sort);
    out.append("|");
    let p = i64_text(page as i64);
    out.append(p.as_str());
    out
}

/// The page subtitle with the library's counts.
pub fn assets_subtitle(used: i64, orphan: i64) -> (r: String)
    requires
        i64::MIN <= used + orphan <= i64::MAX,
    ensures
        r@ == "管理文章编辑器上传的图片。共 "@ + spec_int_text(used + orphan) + " 张，引用中 "@
            + spec_int_text(used as int) + " 张，未引用 "@ + spec_int_text(orphan as int) + " 张。"@,
{
    let mut out = String::from_str("管理文章编辑器上传的图片。共 ");
    let all = i64_text(used + orphan);
    out.append(all.as_str());
    out.append(" 张，引用中 ");
    let u = i64_text(used);
    out.append(u.as_str());
    out.append(" 张，未引用 ");
    let o = i64_text(orphan);
    out.append(o.as_str());
    out.append(" 张。");
    out
}

/// A delayed search fires: the query is committed (and the page reset)
/// only when nothing was typed since and it differs from the committed one.
pub fn debounce_commits(query_now: &str, fired: &str, committed: &str) -> (r: bool)
    ensures
        r == (query_now@ == fired@ && committed@ != fired@),
{
    str_eq(query_now, fired) && !str_eq(committed, fired)
}

/// The grid's query state: the filter tab and sort keys, the search box,
/// the committed (debounced) search and the page.
pub struct AssetQuery {
    pub filter: String,
    pub sort: String,
    pub query: String,
    pub committed: String,
    pub page: i32,
}

/// What the grid loads: filter, committed search, order and page.
pub struct AssetRequest {
    pub filter: AssetFilter,
    pub query: String,
    pub sort: AssetSort,
    pub page: i32,
}

impl AssetQuery {
    /// The page as it opens: every asset, newest first, no search, page 1.
    pub fn new() -> (r: AssetQuery)
        ensures
            r.filter@ == "all"@,
            r.sort@ == "created"@,
            r.query@.len() == 0,
            r.committed@.len() == 0,
            r.page == 1,
    {
        AssetQuery {
            filter: String::from_str("all"),
            sort: String::from_str("created"),
            query: String::new(),
            committed: String::new(),
            page: 1,
        }
    }

    /// A filter tab is chosen: back to the first page.
    pub fn choose_filter(&mut self, key: String)
        ensures
            final(self).filter == key,
            final(self).page == 1,
            final(self).sort == old(self).sort,
            final(self).query == old(self).query,
            final(self).committed == old(self).committed,
    {
        self.filter = key;
        self.page = 1;
    }

    /// "最新" or "最大" is chosen: back to the first page.
    pub fn choose_sort(&mut self, key: String)
        ensures
            final(self).sort == key,
            final(self).page == 1,
            final(self).filter == old(self).filter,
            final(self).query == old(self).query,
            final(self).committed == old(self).committed,
    {
        self.sort = key;
        self.page = 1;
    }

    /// Typing in the search box: nothing loads until the search commits.
    pub fn type_query(&mut self, q: String)
        ensures
            final(self).query == q,
            final(self).filter == old(self).filter,
            final(self).sort == old(self).sort,
            final(self).committed == old(self).committed,
            final(self).page == old(self).page,
    {
        self.query = q;
    }

    /// The search delay for `fired` (the box's text when it started)
    /// elapsed: when nothing was typed since and the text differs from the
    /// committed search, it is committed and the page goes back to 1;
    /// otherwise nothing changes. Returns whether it committed.
    pub fn search_elapsed(&mut self, fired: &str) -> (r: bool)
        ensures
            r == (old(self).query@ == fired@ && old(self).committed@ != fired@),
            r ==> final(self).committed@ == fired@ && final(self).page == 1,
            !r ==> final(self).committed == old(self).committed && final(self).page == old(
                self,
            ).page,
            final(self).filter == old(self).filter,
            final(self).sort == old(self).sort,
            final(self).query == old(self).query,
    {
        if debounce_commits(self.query.as_str(), fired, self.committed.as_str()) {
            self.committed = self.query.clone();
            self.page = 1;
            true
        } else {
            false
        }
    }

    /// "Previous page": one back, never below the first.
    pub fn prev(&mut self)
        requires
            old(self).page > i32::MIN,
        ensures
            final(self).page == (if old(self).page - 1 < 1 {
                1
            } else {
                old(self).page - 1
            }),
            final(self).filter == old(self).filter,
            final(self).sort == old(self).sort,
            final(self).query == old(self).query,
            final(self).committed == old(self).committed,
    {
        self.page = prev_page(self.page);
    }

    /// "Next page".
    pub fn next(&mut self)
        requires
            old(self).page < i32::MAX,
        ensures
            final(self).page == old(self).page + 1,
            final(self).filter == old(self).filter,
            final(self).sort == old(self).sort,
            final(self).query == old(self).query,
            final(self).committed == old(self).committed,
    {
        self.page = next_page(self.page);
    }

    /// A page number was chosen.
    pub fn jump(&mut self, p: i32)
        ensures
            final(self).page == p,
            final(self).filter == old(self).filter,
            final(self).sort == old(self).sort,
            final(self).query == old(self).query,
            final(self).committed == old(self).committed,
    {
        self.page = p;
    }

    /// What the grid loads for this state: the filter by its key, the
    /// committed search (not what is being typed), the order by its key,
    /// and the page.
    pub fn request(&self) -> (r: AssetRequest)
        ensures
            r.filter == (if self.filter@ == "used"@ {
                AssetFilter::Used
            } else if self.filter@ == "orphan"@ {
                AssetFilter::Orphan
            } else {
                AssetFilter::All
            }),
            r.query@ == self.committed@,
            r.sort == (if self.sort@ == "size"@ {
                AssetSort::SizeDesc
            } else {
                AssetSort::CreatedDesc
            }),
            r.page == self.page,
    {
        AssetRequest {
            filter: filter_from_key(self.filter.as_str()),
            query: self.committed.clone(),
            sort: sort_from_key(self.sort.as_str()),
            page: self.page,
        }
    }
}

/// A card of the grid, as the page's logic reads it.
pub struct AssetCard {
    pub id: String,
    pub ref_count: i64,
}

/// Only an unreferenced asset can be selected or deleted from the grid:
/// a referenced card shows no checkbox and only a disabled delete mark.
pub open spec fn selectable(ref_count: i64) -> bool {
    ref_count == 0
}

/// Whether a card gets a checkbox and a clickable delete button.
pub fn card_selectable(ref_count: i64) -> (r: bool)
    ensures
        r == selectable(ref_count),
{
    ref_count == 0
}

/// The id a card's delete button asks to confirm: its own when it is
/// unreferenced, none otherwise.
pub fn delete_target(card: &AssetCard) -> (r: Option<String>)
    ensures
        selectable(card.ref_count) ==> (r matches Some(id) && id@ == card.id@),
        !selectable(card.ref_count) ==> r is None,
{
    if card_selectable(card.ref_count) {
        Some(card.id.clone())
    } else {
        None
    }
}

/// The ids of a sequence of strings, as character sequences.
pub open spec fn id_views(v: Seq<String>) -> Seq<Seq<char>> {
    v.map_values(|s: String| s@)
}

/// The ids of the unreferenced cards, in grid order.
pub open spec fn orphan_ids(cards: Seq<AssetCard>) -> Seq<Seq<char>>
    decreases cards.len(),
{
    if cards.len() == 0 {
        Seq::empty()
    } else if cards.last().ref_count == 0 {
        orphan_ids(cards.drop_last()).push(cards.last().id@)
    } else {
        orphan_ids(cards.drop_last())
    }
}

/// The ids on this page that may be selected: the unreferenced ones.
pub fn page_orphan_ids(cards: &Vec<AssetCard>) -> (r: Vec<String>)
    ensures
        id_views(r@) == orphan_ids(cards@),
{
    let mut out: Vec<String> = Vec::new();
    let mut i: usize = 0;
    while i < cards.len()
        invariant
            i <= cards.len(),
            id_views(out@) == orphan_ids(cards@.subrange(0, i as int)),
        decreases cards.len() - i,
    {
        let ghost before = out@;
        proof {
            assert(cards@.subrange(0, i + 1).drop_last() =~= cards@.subrange(0, i as int));
        }
        if cards[i].ref_count == 0 {
            out.push(cards[i].id.clone());
            proof {
                assert(id_views(out@) =~= id_views(before).push(cards@[i as int].id@));
            }
        }
        i = i + 1;
    }
    proof {
        assert(cards@.subrange(0, cards@.len() as int) =~= cards@);
    }
    out
}

/// Whether `id` occurs in `v`.
pub fn contains_id(v: &Vec<String>, id: &str) -> (r: bool)
    ensures
        r == id_views(v@).contains(id@),
{
    let mut i: usize = 0;
    while i < v.len()
        invariant
            i <= v.len(),
            forall|k: int| 0 <= k < i ==> v@[k]@ != id@,
        decreases v.len() - i,
    {
        if str_eq(v[i].as_str(), id) {
            proof {
                assert(id_views(v@)[i as int] == id@);
            }
            return true;
        }
        i = i + 1;
    }
    proof {
        if id_views(v@).contains(id@) {
            let k = choose|k: int| 0 <= k < id_views(v@).len() && id_views(v@)[k] == id@;
            assert(v@[k]@ == id@);
        }
    }
    false
}

/// The multi-selection of unreferenced assets and its action bar. Ids are
/// kept across pages and filters. The bar leaves with an exit animation:
/// `closing` marks it, and the ids are cleared only when the animation
/// ends.
pub struct AssetSelection {
    pub ids: Vec<String>,
    pub confirm: bool,
    pub closing: bool,
}

/// The selected ids as a set.
pub open spec fn id_set(v: Seq<String>) -> Set<Seq<char>> {
    id_views(v).to_set()
}

impl AssetSelection {
    /// No id is selected twice.
    pub open spec fn wf(&self) -> bool {
        id_views(self.ids@).no_duplicates()
    }

    /// Nothing selected, bar hidden.
    pub fn new() -> (r: AssetSelection)
        ensures
            r.wf(),
            r.ids@.len() == 0,
            !r.confirm,
            !r.closing,
    {
        let r = AssetSelection { ids: Vec::new(), confirm: false, closing: false };
        proof {
            assert(id_views(r.ids@) =~= Seq::<Seq<char>>::empty());
        }
        r
    }

    /// The bar shows while anything is selected.
    pub fn any_selected(&self) -> (r: bool)
        ensures
            r == (self.ids@.len() > 0),
    {
        self.ids.len() > 0
    }

    /// Whether an id is selected.
    pub fn is_selected(&self, id: &str) -> (r: bool)
        ensures
            r == id_set(self.ids@).contains(id@),
    {
        contains_id(&self.ids, id)
    }

    /// Every selectable id of the page is selected (and there is one).
    pub fn all_page_selected(&self, page_ids: &Vec<String>) -> (r: bool)
        ensures
            r == (page_ids@.len() > 0 && forall|k: int|
                0 <= k < page_ids@.len() ==> id_set(self.ids@).contains(#[trigger] page_ids@[k]@)),
    {
        if page_ids.len() == 0 {
            return false;
        }
        let mut i: usize = 0;
        while i < page_ids.len()
            invariant
                i <= page_ids.len(),
                forall|k: int| 0 <= k < i ==> id_set(self.ids@).contains(#[trigger] page_ids@[k]@),
            decreases page_ids.len() - i,
        {
            if !contains_id(&self.ids, page_ids[i].as_str()) {
                return false;
            }
            i = i + 1;
        }
        true
    }

    /// Adds an id (no-op when present).
    fn select(&mut self, id: &str)
        requires
            old(self).wf(),
        ensures
            final(self).wf(),
            final(self).confirm == old(self).confirm,
            final(self).closing == old(self).closing,
            id_set(final(self).ids@) == id_set(old(self).ids@).insert(id@),
    {
        if !contains_id(&self.ids, id) {
            let ghost before = id_views(self.ids@);
            self.ids.push(String::from_str(id));
            proof {
                assert(id_views(self.ids@) =~= before.push(id@));
                before.lemma_push_to_set_commute(id@);
            }
        } else {
            proof {
                assert(id_set(self.ids@) =~= id_set(self.ids@).insert(id@));
            }
        }
    }

    /// Removes an id (no-op when absent).
    fn deselect(&mut self, id: &str)
        requires
            old(self).wf(),
        ensures
            final(self).wf(),
            final(self).confirm == old(self).confirm,
            final(self).closing == old(self).closing,
            id_set(final(self).ids@) == id_set(old(self).ids@).remove(id@),
    {
        let ghost before = id_views(self.ids@);
        let n = self.ids.len();
        let mut kept: Vec<String> = Vec::new();
        let mut i: usize = 0;
        while i < n
            invariant
                n == before.len(),
                before == id_views(self.ids@),
                before.no_duplicates(),
                i <= n,
                id_views(kept@).no_duplicates(),
                forall|x: Seq<char>| id_views(kept@).contains(x) <==> (x != id@ && exists|k: int|
                    0 <= k < i && before[k] == x),
            decreases n - i,
        {
            let v = &self.ids[i];
            let ghost vv = v@;
            proof {
                assert(before[i as int] == vv);
            }
            if !str_eq(v.as_str(), id) {
                let ghost kb = id_views(kept@);
                proof {
                    assert(!kb.contains(vv)) by {
                        if kb.contains(vv) {
                            let k = choose|k: int| 0 <= k < i && before[k] == vv;
                            assert(before[k] == before[i as int]);
                        }
                    }
                }
                kept.push(v.clone());
                proof {
                    assert(id_views(kept@) =~= kb.push(vv));
                    assert forall|x: Seq<char>| id_views(kept@).contains(x) <==> (x != id@ && exists|
                        k: int,
                    | 0 <= k < i + 1 && before[k] == x) by {
                        if id_views(kept@).contains(x) {
                            let q = choose|q: int|
                                0 <= q < id_views(kept@).len() && id_views(kept@)[q] == x;
                            if q < kb.len() {
                                assert(kb[q] == x);
                                assert(kb.contains(x));
                            } else {
                                assert(before[i as int] == x);
                            }
                        }
                        if x != id@ && exists|k: int| 0 <= k < i + 1 && before[k] == x {
                            let k = choose|k: int| 0 <= k < i + 1 && before[k] == x;
                            if k < i {
                                assert(kb.contains(x));
                                let q = choose|q: int| 0 <= q < kb.len() && kb[q] == x;
                                assert(id_views(kept@)[q] == x);
                            } else {
                                assert(id_views(kept@)[kb.len() as int] == x);
                            }
                        }
                    }
                }
            } else {
                proof {
                    assert forall|x: Seq<char>| id_views(kept@).contains(x) <==> (x != id@ && exists|
                        k: int,
                    | 0 <= k < i + 1 && before[k] == x) by {
                        if x != id@ && exists|k: int| 0 <= k < i + 1 && before[k] == x {
                            let k = choose|k: int| 0 <= k < i + 1 && before[k] == x;
                            assert(k < i);
                        }
                    }
                }
            }
            i = i + 1;
        }
        self.ids = kept;
        proof {
            assert forall|x: Seq<char>| id_set(self.ids@).contains(x) <==> before.to_set().remove(
                id@,
            ).contains(x) by {
                if before.contains(x) {
                    let k = choose|k: int| 0 <= k < before.len() && before[k] == x;
                }
            }
            assert(id_set(self.ids@) =~= before.to_set().remove(id@));
        }
    }

    /// Applies a new selection: an empty one starts the bar's exit (the
    /// ids stay until the animation ends); otherwise it replaces the ids and
    /// cancels a pending exit.
    fn settle(&mut self, next: Vec<String>)
        requires
            id_views(next@).no_duplicates(),
            old(self).wf(),
        ensures
            final(self).wf(),
            final(self).confirm == old(self).confirm,
            next@.len() == 0 ==> final(self).ids == old(self).ids && final(self).closing,
            next@.len() > 0 ==> final(self).ids == next && !final(self).closing,
    {
        if next.len() == 0 {
            self.closing = true;
        } else {
            self.closing = false;
            self.ids = next;
        }
    }

    /// A card's checkbox toggles its id.
    pub fn toggle_one(&mut self, id: &str)
        requires
            old(self).wf(),
        ensures
            final(self).wf(),
            final(self).confirm == old(self).confirm,
            ({
                let s = toggled_ids(id_set(old(self).ids@), id@);
                &&& s.is_empty() ==> final(self).ids == old(self).ids && final(self).closing
                &&& !s.is_empty() ==> id_set(final(self).ids@) == s && !final(self).closing
            }),
    {
        let mut next = AssetSelection { ids: self.ids.clone(), confirm: false, closing: false };
        proof {
            assert(next.ids@ =~= self.ids@);
        }
        if next.is_selected(id) {
            next.deselect(id);
        } else {
            next.select(id);
        }
        proof {
            lemma_empty_iff(next.ids@);
        }
        self.settle(next.ids);
    }

    /// A click on a card's checkbox. Only an unreferenced card has one, so
    /// a referenced card's click changes nothing.
    pub fn toggle_card(&mut self, card: &AssetCard)
        requires
            old(self).wf(),
        ensures
            final(self).wf(),
            final(self).confirm == old(self).confirm,
            !selectable(card.ref_count) ==> *final(self) == *old(self),
            selectable(card.ref_count) ==> ({
                let s = card_click(id_set(old(self).ids@), *card);
                &&& s.is_empty() ==> final(self).ids == old(self).ids && final(self).closing
                &&& !s.is_empty() ==> id_set(final(self).ids@) == s && !final(self).closing
            }),
    {
        if card_selectable(card.ref_count) {
            self.toggle_one(card.id.as_str());
        }
    }

    /// "Select page" / "unselect page": when every selectable id of the
    /// page is selected they all leave the selection, otherwise they all
    /// join it.
    pub fn toggle_page(&mut self, page_ids: &Vec<String>)
        requires
            old(self).wf(),
        ensures
            final(self).wf(),
            final(self).confirm == old(self).confirm,
            ({
                let all = page_ids@.len() > 0 && forall|k: int|
                    0 <= k < page_ids@.len() ==> id_set(old(self).ids@).contains(
                        #[trigger] page_ids@[k]@,
                    );
                let s = if all {
                    id_set(old(self).ids@).difference(id_set(page_ids@))
                } else {
                    id_set(old(self).ids@).union(id_set(page_ids@))
                };
                &&& s.is_empty() ==> final(self).ids == old(self).ids && final(self).closing
                &&& !s.is_empty() ==> id_set(final(self).ids@) == s && !final(self).closing
            }),
    {
        let all = self.all_page_selected(page_ids);
        let mut next = AssetSelection { ids: self.ids.clone(), confirm: false, closing: false };
        proof {
            assert(next.ids@ =~= self.ids@);
        }
        let ghost s0 = id_set(self.ids@);
        let ghost pv = id_views(page_ids@);
        let n = page_ids.len();
        let mut i: usize = 0;
        while i < n
            invariant
                next.wf(),
                n == page_ids@.len(),
                pv == id_views(page_ids@),
                i <= n,
                all ==> id_set(next.ids@) == s0.difference(pv.subrange(0, i as int).to_set()),
                !all ==> id_set(next.ids@) == s0.union(pv.subrange(0, i as int).to_set()),
            decreases n - i,
        {
            let id = page_ids[i].as_str();
            proof {
                assert(pv.subrange(0, i + 1) =~= pv.subrange(0, i as int).push(id@));
                pv.subrange(0, i as int).lemma_push_to_set_commute(id@);
            }
            if all {
                next.deselect(id);
                proof {
                    assert(s0.difference(pv.subrange(0, i as int).to_set()).remove(id@)
                        =~= s0.difference(pv.subrange(0, i + 1).to_set()));
                }
            } else {
                next.select(id);
                proof {
                    assert(s0.union(pv.subrange(0, i as int).to_set()).insert(id@) =~= s0.union(
                        pv.subrange(0, i + 1).to_set(),
                    ));
                }
            }
            i = i + 1;
        }
        proof {
            assert(pv.subrange(0, n as int) =~= pv);
            lemma_empty_iff(next.ids@);
        }
        self.settle(next.ids);
    }

    /// "Clear": drops the pending confirmation and starts the bar's exit.
    pub fn clear(&mut self)
        requires
            old(self).wf(),
        ensures
            final(self).wf(),
            final(self).ids == old(self).ids,
            !final(self).confirm,
            final(self).closing,
    {
        self.confirm = false;
        self.closing = true;
    }

    /// The exit animation ended: unless a new selection cancelled the
    /// exit, the selection and its confirmation are cleared.
    pub fn exit_elapsed(&mut self)
        requires
            old(self).wf(),
        ensures
            final(self).wf(),
            old(self).closing ==> final(self).ids@.len() == 0 && !final(self).confirm
                && !final(self).closing,
            !old(self).closing ==> *final(self) == *old(self),
    {
        if self.closing {
            self.ids = Vec::new();
            self.confirm = false;
            self.closing = false;
            proof {
                assert(id_views(self.ids@) =~= Seq::<Seq<char>>::empty());
            }
        }
    }

    /// A batch delete answered: when anything was deleted the bar leaves
    /// (and the grid reloads, which the result tells).
    pub fn batch_deleted(&mut self, deleted_count: i64) -> (reload: bool)
        requires
            old(self).wf(),
        ensures
            final(self).wf(),
            final(self).ids == old(self).ids,
            final(self).confirm == old(self).confirm,
            reload == (deleted_count > 0),
            reload ==> final(self).closing,
            !reload ==> final(self).closing == old(self).closing,
    {
        if deleted_count > 0 {
            self.closing = true;
            true
        } else {
            false
        }
    }
}

proof fn lemma_empty_iff(v: Seq<String>)
    ensures
        id_set(v).is_empty() <==> v.len() == 0,
{
    if v.len() > 0 {
        assert(id_set(v).contains(id_views(v)[0]));
    } else {
        assert(id_set(v) =~= Set::<Seq<char>>::empty());
    }
}

/// The operation banner (results of deletes, purges, alt edits and index
/// rebuilds). It too leaves with an exit animation.
pub struct OpBanner {
    pub message: Option<String>,
    pub closing: bool,
}

impl OpBanner {
    /// No banner.
    pub fn new() -> (r: OpBanner)
        ensures
            r.message is None,
            !r.closing,
    {
        OpBanner { message: None, closing: false }
    }

    /// A new message replaces the current one and cancels its exit.
    pub fn show(&mut self, msg: String)
        ensures
            final(self).message == Some(msg),
            !final(self).closing,
    {
        self.closing = false;
        self.message = Some(msg);
    }

    /// The close button starts the exit animation.
    pub fn dismiss(&mut self)
        ensures
            final(self).message == old(self).message,
            final(self).closing,
    {
        self.closing = true;
    }

    /// The exit animation ended: the banner goes, unless a new message
    /// arrived meanwhile.
    pub fn exit_elapsed(&mut self)
        ensures
            old(self).closing ==> final(self).message is None && !final(self).closing,
            !old(self).closing ==> *final(self) == *old(self),
    {
        if self.closing {
            self.message = None;
            self.closing = false;
        }
    }
}

/// The message after purging unreferenced assets (`freed` is the freed
/// size as displayed).
pub fn purge_message(deleted_count: u64, freed: &str, failures: u64) -> (r: String)
    ensures
        failures == 0 ==> r@ == "已清理 "@ + spec_decimal(deleted_count as nat) + " 张未引用素材，释放 "@
            + freed@,
        failures > 0 ==> r@ == "已清理 "@ + spec_decimal(deleted_count as nat) + " 张未引用素材，释放 "@
            + freed@ + "（"@ + spec_decimal(failures as nat) + " 个文件删除失败）"@,
{
    let mut out = String::from_str("已清理 ");
    let d = u64_text(deleted_count);
    out.append(d.as_str());
    out.append(" 张未引用素材，释放 ");
    out.append(freed);
    if failures > 0 {
        out.append("（");
        let f = u64_text(failures);
        out.append(f.as_str());
        out.append(" 个文件删除失败）");
    }
    out
}

/// The message after a batch delete: the server's message, the freed size
/// when anything was freed, the failures when any.
pub fn batch_delete_message(message: &str, freed_bytes: u64, freed: &str, failures: u64) -> (r: String)
    ensures
        r@ == message@ + (if freed_bytes > 0 {
            "，释放 "@ + freed@
        } else {
            Seq::empty()
        }) + (if failures > 0 {
            "（"@ + spec_decimal(failures as nat) + " 项失败）"@
        } else {
            Seq::empty()
        }),
{
    let mut out = String::from_str(message);
    let ghost base = out@;
    if freed_bytes > 0 {
        out.append("，释放 ");
        out.append(freed);
    }
    let ghost mid = out@;
    if failures > 0 {
        out.append("（");
        let f = u64_text(failures);
        out.append(f.as_str());
        out.append(" 项失败）");
    }
    proof {
        if freed_bytes > 0 {
            assert(mid =~= message@ + ("，释放 "@ + freed@));
        } else {
            assert(mid =~= message@ + Seq::<char>::empty());
        }
        if failures > 0 {
            assert(out@ =~= mid + ("（"@ + spec_decimal(failures as nat) + " 项失败）"@));
        } else {
            assert(out@ =~= mid + Seq::<char>::empty());
        }
    }
    out
}

/// After a single delete the grid reloads when it succeeded, or when the
/// refusal came with no references (the asset is gone: the grid is stale).
pub fn delete_needs_reload(success: bool, refs_empty: bool) -> (r: bool)
    ensures
        r == (success || refs_empty),
{
    success || (!success && refs_empty)
}

/// The operations whose failure the banner reports.
#[derive(Clone, Copy, Debug, PartialEq, Eq, Structural)]
pub enum AssetOp {
    Rebuild,
    Purge,
    BatchDelete,
    Delete,
    SaveAlt,
}

/// The prefix of an operation's failure message.
pub open spec fn op_failure_prefix(op: AssetOp) -> Seq<char> {
    match op {
        AssetOp::Rebuild => "重建失败："@,
        AssetOp::Purge => "清理失败："@,
        AssetOp::BatchDelete => "批量删除失败："@,
        AssetOp::Delete => "删除失败："@,
        AssetOp::SaveAlt => "保存失败："@,
    }
}

/// The banner text of a failed operation.
pub fn op_failure(op: AssetOp, err: &str) -> (r: String)
    ensures
        r@ == op_failure_prefix(op) + err@,
{
    let mut out = match op {
        AssetOp::Rebuild => String::from_str("重建失败："),
        AssetOp::Purge => String::from_str("清理失败："),
        AssetOp::BatchDelete => String::from_str("批量删除失败："),
        AssetOp::Delete => String::from_str("删除失败："),
        AssetOp::SaveAlt => String::from_str("保存失败："),
    };
    out.append(err);
    out
}

/// The purge button: armed (second step) or not.
pub fn purge_button_text(confirm: bool, count: i64, size: &str) -> (r: String)
    ensures
        confirm ==> r@ == "确认清理 "@ + spec_int_text(count as int) + " 张（"@ + size@ + "）"@,
        !confirm ==> r@ == "清理未引用（"@ + spec_int_text(count as int) + " 张 · "@ + size@
            + "）"@,
{
    let n = i64_text(count);
    if confirm {
        let mut out = String::from_str("确认清理 ");
        out.append(n.as_str());
        out.append(" 张（");
        out.append(size);
        out.append("）");
        out
    } else {
        let mut out = String::from_str("清理未引用（");
        out.append(n.as_str());
        out.append(" 张 · ");
        out.append(size);
        out.append("）");
        out
    }
}

/// The grid thumbnail of an upload.
pub fn thumb_url(path: &str) -> (r: String)
    ensures
        r@ == "/uploads/"@ + path@ + "?thumb=300x300"@,
{
    let mut out = String::from_str("/uploads/");
    out.append(path);
    out.append("?thumb=300x300");
    out
}

/// The blurred placeholder of an upload.
pub fn placeholder_url(path: &str) -> (r: String)
    ensures
        r@ == "/uploads/"@ + path@ + "?w=20"@,
{
    let mut out = String::from_str("/uploads/");
    out.append(path);
    out.append("?w=20");
    out
}

/// The relative path that "copy path" puts on the clipboard.
pub fn upload_path(path: &str) -> (r: String)
    ensures
        r@ == "/uploads/"@ + path@,
{
    let mut out = String::from_str("/uploads/");
    out.append(path);
    out
}

/// The image's alt text: its own, else its file name.
pub fn image_alt(alt: &Option<String>, filename: &str) -> (r: String)
    ensures
        alt matches Some(a) ==> r@ == a@,
        alt is None ==> r@ == filename@,
{
    match alt {
        Some(a) => a.clone(),
        None => String::from_str(filename),
    }
}

/// The staggered entry delay of the `idx`-th card: 30 ms steps, capped at
/// 300 ms.
pub fn card_enter_delay(idx: usize) -> (r: usize)
    ensures
        r == (if idx * 30 < 300 {
            idx * 30
        } else {
            300
        }),
{
    if idx < 10 {
        idx * 30
    } else {
        300
    }
}

/// Where the reference popover extends from its anchor.
#[derive(Clone, Copy, Debug, PartialEq, Eq, Structural)]
pub enum PopAlign {
    Start,
    Center,
    End,
}

/// Cards near the viewport's left or right edge open the popover inward
/// (240 px is about three quarters of its width).
pub fn popover_align(x: i32, viewport_width: i32) -> (r: PopAlign)
    ensures
        x < 240 ==> r == PopAlign::Start,
        x >= 240 && x > viewport_width - 240 ==> r == PopAlign::End,
        x >= 240 && x <= viewport_width - 240 ==> r == PopAlign::Center,
{
    if x < 240 {
        PopAlign::Start
    } else if (x as i64) > (viewport_width as i64) - 240 {
        PopAlign::End
    } else {
        PopAlign::Center
    }
}

/// Something that references an asset, as the popover reads it.
pub enum AssetRefKind {
    Post { post_id: i64, slug: String, published: bool },
    Comment { post_id: i64, post_slug: String, post_published: bool },
    UserAvatar,
    FriendAvatar,
}

/// The popover's groups, in the order they are listed.
#[derive(Clone, Copy, Debug, PartialEq, Eq, Structural)]
pub enum RefGroup {
    Posts,
    Comments,
    Avatars,
}

/// The group of a reference.
pub open spec fn ref_group_spec(r: AssetRefKind) -> RefGroup {
    match r {
        AssetRefKind::Post { .. } => RefGroup::Posts,
        AssetRefKind::Comment { .. } => RefGroup::Comments,
        AssetRefKind::UserAvatar => RefGroup::Avatars,
        AssetRefKind::FriendAvatar => RefGroup::Avatars,
    }
}

/// The group of a reference.
pub fn ref_group(r: &AssetRefKind) -> (g: RefGroup)
    ensures
        g == ref_group_spec(*r),
{
    match r {
        AssetRefKind::Post { .. } => RefGroup::Posts,
        AssetRefKind::Comment { .. } => RefGroup::Comments,
        AssetRefKind::UserAvatar => RefGroup::Avatars,
        AssetRefKind::FriendAvatar => RefGroup::Avatars,
    }
}

/// The positions of a group's references, in the server's order.
pub fn group_members(refs: &Vec<AssetRefKind>, g: RefGroup) -> (r: Vec<usize>)
    ensures
        forall|j: int| 0 <= j < r@.len() ==> r@[j] < refs@.len() && ref_group_spec(refs@[r@[j] as int]) == g,
        forall|j: int, l: int| 0 <= j < l < r@.len() ==> r@[j] < r@[l],
        forall|k: int| 0 <= k < refs@.len() && ref_group_spec(refs@[k]) == g ==> r@.contains(k as usize),
{
    let mut out: Vec<usize> = Vec::new();
    let mut i: usize = 0;
    while i < refs.len()
        invariant
            i <= refs.len(),
            forall|j: int| 0 <= j < out@.len() ==> out@[j] < i && ref_group_spec(refs@[out@[j] as int]) == g,
            forall|j: int, l: int| 0 <= j < l < out@.len() ==> out@[j] < out@[l],
            forall|k: int| 0 <= k < i && ref_group_spec(refs@[k]) == g ==> out@.contains(k as usize),
        decreases refs.len() - i,
    {
        if ref_group(&refs[i]) == g {
            let ghost before = out@;
            out.push(i);
            proof {
                assert forall|k: int| 0 <= k < i + 1 && ref_group_spec(refs@[k]) == g implies out@.contains(
                    k as usize,
                ) by {
                    if k < i {
                        let q = choose|q: int| 0 <= q < before.len() && before[q] == k as usize;
                        assert(out@[q] == k as usize);
                    } else {
                        assert(out@[before.len() as int] == k as usize);
                    }
                }
            }
        }
        i = i + 1;
    }
    out
}

/// Where a reference row leads.
pub enum RefTarget {
    /// A published post, opened in a new tab.
    NewTab(String),
    /// A draft or trashed post, opened in the editor.
    Edit(i64),
    /// The friends admin page.
    Friends,
    /// Nothing (a user's avatar has no admin page).
    Plain,
}

/// Where a reference row leads: published posts open their public page,
/// other posts the editor, friend avatars the friends page.
pub fn ref_target(r: &AssetRefKind) -> (t: RefTarget)
    ensures
        *r matches AssetRefKind::Post { post_id, slug, published } ==> (if published {
            t matches RefTarget::NewTab(u) && u@ == "/post/"@ + slug@
        } else {
            t == RefTarget::Edit(post_id)
        }),
        *r matches AssetRefKind::Comment { post_id, post_slug, post_published } ==> (if post_published {
            t matches RefTarget::NewTab(u) && u@ == "/post/"@ + post_slug@
        } else {
            t == RefTarget::Edit(post_id)
        }),
        *r is UserAvatar ==> t is Plain,
        *r is FriendAvatar ==> t is Friends,
{
    match r {
        AssetRefKind::Post { post_id, slug, published } => {
            if *published {
                let mut u = String::from_str("/post/");
                u.append(slug.as_str());
                RefTarget::NewTab(u)
            } else {
                RefTarget::Edit(*post_id)
            }
        },
        AssetRefKind::Comment { post_id, post_slug, post_published } => {
            if *post_published {
                let mut u = String::from_str("/post/");
                u.append(post_slug.as_str());
                RefTarget::NewTab(u)
            } else {
                RefTarget::Edit(*post_id)
            }
        },
        AssetRefKind::UserAvatar => RefTarget::Plain,
        AssetRefKind::FriendAvatar => RefTarget::Friends,
    }
}

/// A card's id after its checkbox is clicked.
pub open spec fn toggled_ids(s: Set<Seq<char>>, id: Seq<char>) -> Set<Seq<char>> {
    if s.contains(id) {
        s.remove(id)
    } else {
        s.insert(id)
    }
}

/// The selection after a click on `card`: toggled when the card is
/// unreferenced, unchanged otherwise.
pub open spec fn card_click(s: Set<Seq<char>>, card: AssetCard) -> Set<Seq<char>> {
    if selectable(card.ref_count) {
        toggled_ids(s, card.id@)
    } else {
        s
    }
}

/// The selection after clicking the cards of `clicks`, in order.
pub open spec fn after_clicks(s: Set<Seq<char>>, clicks: Seq<AssetCard>) -> Set<Seq<char>>
    decreases clicks.len(),
{
    if clicks.len() == 0 {
        s
    } else {
        card_click(after_clicks(s, clicks.drop_last()), clicks.last())
    }
}

/// Starting from an empty selection, whatever cards are clicked, only
/// unreferenced ones among them end up selected.
pub proof fn lemma_clicks_select_only_orphans(clicks: Seq<AssetCard>)
    ensures
        after_clicks(Set::empty(), clicks).subset_of(orphan_ids(clicks).to_set()),
    decreases clicks.len(),
{
    if clicks.len() == 0 {
        assert(orphan_ids(clicks) =~= Seq::<Seq<char>>::empty());
    } else {
        let prev = clicks.drop_last();
        lemma_clicks_select_only_orphans(prev);
        let c = clicks.last();
        if selectable(c.ref_count) {
            orphan_ids(prev).lemma_push_to_set_commute(c.id@);
        }
    }
}

/// When every selected id is that of an unreferenced asset shown so far
/// (`shown`), selecting or unselecting the selectable ids of a further
/// page keeps it so, with that page's unreferenced ids counted as shown.
pub proof fn lemma_page_toggle_selects_only_orphans(
    s: Set<Seq<char>>,
    shown: Set<Seq<char>>,
    page: Seq<AssetCard>,
)
    requires
        s.subset_of(shown),
    ensures
        s.union(orphan_ids(page).to_set()).subset_of(shown.union(orphan_ids(page).to_set())),
        s.difference(orphan_ids(page).to_set()).subset_of(shown),
{
}

/// Clicking the same card's checkbox twice restores the selection.
pub proof fn lemma_toggle_one_twice(s: Set<Seq<char>>, id: Seq<char>)
    ensures
        toggled_ids(toggled_ids(s, id), id) == s,
{
    if s.contains(id) {
        assert(s.remove(id).insert(id) =~= s);
    } else {
        assert(s.insert(id).remove(id) =~= s);
    }
}

} // verus!
