//! Bookkeeping shared by the admin list pages (comments, trash, posts,
//! assets): the rows of the current page with their id, the optimistic
//! total, the multi-selection, and paging.

use vstd::prelude::*;

use std::collections::HashSet;

use vstd::std_specs::hash::spec_hash_keys_iter;
use vstd::std_specs::iter::IteratorSpec;

verus! {

/// A row of a list page: the id the page keys it by and what it shows.
pub struct Row<T> {
    pub id: i64,
    pub item: T,
}

/// A page of rows, the server's total, and the selected ids.
pub struct Listing<T> {
    pub rows: Vec<Row<T>>,
    pub total: i64,
    /// Selected ids (those of other pages stay selected).
    pub selected: HashSet<i64>,
}

/// The ids of `rows`, in order.
pub open spec fn row_ids<T>(rows: Seq<Row<T>>) -> Seq<i64> {
    rows.map_values(|r: Row<T>| r.id)
}

/// `rows` without those of id `id`, order kept.
pub open spec fn rows_without<T>(rows: Seq<Row<T>>, id: i64) -> Seq<Row<T>>
    decreases rows.len(),
{
    if rows.len() == 0 {
        rows
    } else if rows.last().id == id {
        rows_without(rows.drop_last(), id)
    } else {
        rows_without(rows.drop_last(), id).push(rows.last())
    }
}

/// `total - 1`, saturating at the bottom of `i64`.
pub open spec fn dec_total(t: i64) -> i64 {
    if t == i64::MIN {
        t
    } else {
        (t - 1) as i64
    }
}

/// The ids of a set, each once, in the set's iteration order.
fn set_ids(s: &HashSet<i64>) -> (r: Vec<i64>)
    ensures
        r@.to_set() == s@,
        r@.no_duplicates(),
{
    let ghost keys = spec_hash_keys_iter(s).remaining().unref();
    let mut out: Vec<i64> = Vec::new();
    for x in it: s.iter()
        invariant
            it.seq().unref() == keys,
            out@ == keys.subrange(0, it.index() as int),
    {
        out.push(*x);
        proof {
            assert(out@ =~= keys.subrange(0, it.index() + 1));
        }
    }
    proof {
        assert(out@ =~= keys);
    }
    out
}

impl<T> Listing<T> {
    /// A page as it arrives from the server, nothing selected.
    pub fn new(rows: Vec<Row<T>>, total: i64) -> (r: Listing<T>)
        ensures
            r.rows@ == rows@,
            r.total == total,
            r.selected@ == Set::<i64>::empty(),
    {
        Listing { rows, total, selected: HashSet::new() }
    }

    /// `id` is selected.
    pub fn is_selected(&self, id: i64) -> (r: bool)
        ensures
            r == self.selected@.contains(id),
    {
        self.selected.contains(&id)
    }

    /// A row's checkbox: checked selects the id, unchecked deselects it.
    pub fn set_selected(&mut self, id: i64, checked: bool)
        ensures
            final(self).rows == old(self).rows,
            final(self).total == old(self).total,
            checked ==> final(self).selected@ == old(self).selected@.insert(id),
            !checked ==> final(self).selected@ == old(self).selected@.remove(id),
    {
        if checked {
            self.selected.insert(id);
        } else {
            self.selected.remove(&id);
        }
    }

    /// Clears the selection.
    pub fn clear_selection(&mut self)
        ensures
            final(self).rows == old(self).rows,
            final(self).total == old(self).total,
            final(self).selected@ == Set::<i64>::empty(),
    {
        self.selected.clear();
    }

    /// "Empty the trash": no rows, a total of zero, nothing selected.
    pub fn clear_all(&mut self)
        ensures
            final(self).rows@.len() == 0,
            final(self).total == 0,
            final(self).selected@ == Set::<i64>::empty(),
    {
        self.rows = Vec::new();
        self.total = 0;
        self.selected.clear();
    }
}


/// `rows` without those whose id is in `ids`, order kept.
pub open spec fn rows_not_in<T>(rows: Seq<Row<T>>, ids: Set<i64>) -> Seq<Row<T>>
    decreases rows.len(),
{
    if rows.len() == 0 {
        rows
    } else if ids.contains(rows.last().id) {
        rows_not_in(rows.drop_last(), ids)
    } else {
        rows_not_in(rows.drop_last(), ids).push(rows.last())
    }
}

/// `dec_total` applied `n` times.
pub open spec fn dec_total_n(t: i64, n: nat) -> i64
    decreases n,
{
    if n == 0 {
        t
    } else {
        dec_total(dec_total_n(t, (n - 1) as nat))
    }
}

proof fn lemma_rows_not_in_step<T>(rows: Seq<Row<T>>, ids: Set<i64>, x: i64)
    ensures
        rows_without(rows_not_in(rows, ids), x) == rows_not_in(rows, ids.insert(x)),
    decreases rows.len(),
{
    if rows.len() > 0 {
        lemma_rows_not_in_step(rows.drop_last(), ids, x);
        let p = rows_not_in(rows.drop_last(), ids);
        if !ids.contains(rows.last().id) {
            assert(p.push(rows.last()).drop_last() =~= p);
        }
    }
}

proof fn lemma_rows_not_in_empty<T>(rows: Seq<Row<T>>)
    ensures
        rows_not_in(rows, Set::empty()) == rows,
    decreases rows.len(),
{
    if rows.len() > 0 {
        lemma_rows_not_in_empty(rows.drop_last());
        assert(rows.drop_last().push(rows.last()) =~= rows);
    }
}

impl<T> Listing<T> {
    /// Every row on the page is selected (true for an empty page).
    pub open spec fn all_selected_spec(&self) -> bool {
        forall|i: int| 0 <= i < self.rows@.len() ==> self.selected@.contains(#[trigger] self.rows@[i].id)
    }

    /// Every row on the page is selected.
    pub fn all_selected(&self) -> (r: bool)
        ensures
            r == self.all_selected_spec(),
    {
        let n = self.rows.len();
        let mut i: usize = 0;
        while i < n
            invariant
                n == self.rows@.len(),
                i <= n,
                forall|k: int| 0 <= k < i ==> self.selected@.contains(#[trigger] self.rows@[k].id),
            decreases n - i,
        {
            if !self.is_selected(self.rows[i].id) {
                return false;
            }
            i = i + 1;
        }
        true
    }

    /// The header checkbox: when every row is selected their ids leave the
    /// selection, otherwise all of them join it. Ids of other pages stay.
    pub fn toggle_all(&mut self)
        ensures
            final(self).rows == old(self).rows,
            final(self).total == old(self).total,
            old(self).all_selected_spec() ==> final(self).selected@ == old(
                self,
            ).selected@.difference(row_ids(old(self).rows@).to_set()),
            !old(self).all_selected_spec() ==> final(self).selected@ == old(
                self,
            ).selected@.union(row_ids(old(self).rows@).to_set()),
    {
        let all = self.all_selected();
        let ghost s0 = self.selected@;
        let ghost ids = row_ids(self.rows@);
        let n = self.rows.len();
        let mut i: usize = 0;
        while i < n
            invariant
                n == self.rows@.len(),
                i <= n,
                self.rows == old(self).rows,
                self.total == old(self).total,
                ids == row_ids(self.rows@),
                all ==> self.selected@ == s0.difference(ids.subrange(0, i as int).to_set()),
                !all ==> self.selected@ == s0.union(ids.subrange(0, i as int).to_set()),
            decreases n - i,
        {
            let id = self.rows[i].id;
            proof {
                assert(ids.subrange(0, i + 1) =~= ids.subrange(0, i as int).push(id));
                ids.subrange(0, i as int).lemma_push_to_set_commute(id);
            }
            if all {
                self.selected.remove(&id);
                proof {
                    assert(s0.difference(ids.subrange(0, i as int).to_set()).remove(id) =~= s0.difference(
                        ids.subrange(0, i + 1).to_set(),
                    ));
                }
            } else {
                self.selected.insert(id);
                proof {
                    assert(s0.union(ids.subrange(0, i as int).to_set()).insert(id) =~= s0.union(
                        ids.subrange(0, i + 1).to_set(),
                    ));
                }
            }
            i = i + 1;
        }
        proof {
            assert(ids.subrange(0, n as int) =~= ids);
        }
    }

    /// Optimistic removal after a delete, restore or purge: the row goes,
    /// the total drops by one, the id leaves the selection.
    pub fn remove(&mut self, id: i64)
        ensures
            final(self).rows@ == rows_without(old(self).rows@, id),
            final(self).total == dec_total(old(self).total),
            final(self).selected@ == old(self).selected@.remove(id),
    {
        let mut current: Vec<Row<T>> = Vec::new();
        std::mem::swap(&mut current, &mut self.rows);
        let ghost all = current@;
        let n = current.len();
        let mut kept: Vec<Row<T>> = Vec::new();
        let mut i: usize = 0;
        while i < n
            invariant
                n == all.len(),
                i <= n,
                current@ == all.subrange(i as int, n as int),
                kept@ == rows_without(all.subrange(0, i as int), id),
            decreases n - i,
        {
            let r = current.remove(0);
            proof {
                assert(current@ =~= all.subrange(i + 1, n as int));
                assert(all.subrange(0, i + 1).drop_last() =~= all.subrange(0, i as int));
                assert(all.subrange(0, i + 1).last() == r);
            }
            if r.id != id {
                kept.push(r);
            }
            i = i + 1;
        }
        proof {
            assert(all.subrange(0, n as int) =~= all);
        }
        self.rows = kept;
        if self.total != i64::MIN {
            self.total = self.total - 1;
        }
        self.selected.remove(&id);
    }

    /// The batch actions (restore, purge, trash): every selected row is
    /// removed optimistically (the total drops once per selected id) and
    /// the selection is cleared.
    pub fn remove_selected(&mut self)
        ensures
            final(self).rows@ == rows_not_in(old(self).rows@, old(self).selected@),
            final(self).total == dec_total_n(old(self).total, old(self).selected@.len()),
            final(self).selected@ == Set::<i64>::empty(),
    {
        let ids = self.take_selection();
        let ghost rows0 = self.rows@;
        let n = ids.len();
        let mut i: usize = 0;
        proof {
            lemma_rows_not_in_empty(rows0);
            assert(ids@.subrange(0, 0).to_set() =~= Set::<i64>::empty());
            ids@.unique_seq_to_set();
        }
        while i < n
            invariant
                n == ids@.len(),
                i <= n,
                self.rows@ == rows_not_in(rows0, ids@.subrange(0, i as int).to_set()),
                self.total == dec_total_n(old(self).total, i as nat),
                rows0 == old(self).rows@,
                ids@.to_set() == old(self).selected@,
            decreases n - i,
        {
            let id = ids[i];
            self.remove(id);
            proof {
                lemma_rows_not_in_step(rows0, ids@.subrange(0, i as int).to_set(), id);
                assert(ids@.subrange(0, i + 1) =~= ids@.subrange(0, i as int).push(id));
                ids@.subrange(0, i as int).lemma_push_to_set_commute(id);
            }
            i = i + 1;
        }
        proof {
            assert(ids@.subrange(0, n as int) =~= ids@);
        }
        self.clear_selection();
    }

    /// Hands out the selected ids, each once, and leaves the selection
    /// empty.
    pub fn take_selection(&mut self) -> (r: Vec<i64>)
        ensures
            r@.to_set() == old(self).selected@,
            r@.no_duplicates(),
            final(self).selected@ == Set::<i64>::empty(),
            final(self).rows == old(self).rows,
            final(self).total == old(self).total,
    {
        let out = set_ids(&self.selected);
        self.selected.clear();
        out
    }

    /// Replaces what the first row of id `id` shows (e.g. a comment's new
    /// status after approve or spam).
    pub fn set_item(&mut self, id: i64, item: T)
        ensures
            final(self).total == old(self).total,
            final(self).selected == old(self).selected,
            (forall|k: int| 0 <= k < old(self).rows@.len() ==> old(self).rows@[k].id != id)
                ==> final(self).rows == old(self).rows,
            (exists|k: int| 0 <= k < old(self).rows@.len() && old(self).rows@[k].id == id)
                ==> (exists|i: int|
                0 <= i < old(self).rows@.len() && old(self).rows@[i].id == id && (forall|k: int|
                    0 <= k < i ==> old(self).rows@[k].id != id) && final(self).rows@ == old(self).rows@.update(
                    i,
                    Row { id, item },
                )),
    {
        let n = self.rows.len();
        let mut i: usize = 0;
        while i < n
            invariant
                n == self.rows@.len(),
                i <= n,
                self.rows == old(self).rows,
                self.total == old(self).total,
                self.selected == old(self).selected,
                forall|k: int| 0 <= k < i ==> self.rows@[k].id != id,
            decreases n - i,
        {
            if self.rows[i].id == id {
                self.rows.set(i, Row { id, item });
                return;
            }
            i = i + 1;
        }
    }
}


/// "Previous": one page back, never below the first.
pub fn prev_page(page: i32) -> (r: i32)
    requires
        page > i32::MIN,
    ensures
        r == if page - 1 < 1 {
            1
        } else {
            page - 1
        },
{
    let p = page - 1;
    if p < 1 {
        1
    } else {
        p
    }
}

/// "Next": one page on.
pub fn next_page(page: i32) -> (r: i32)
    requires
        page < i32::MAX,
    ensures
        r == page + 1,
{
    page + 1
}

/// Integer division as Rust computes it (rounding toward zero).
pub open spec fn trunc_div(a: int, b: int) -> int {
    if a >= 0 {
        a / b
    } else {
        -((-a) / b)
    }
}

/// The last page for `total` items, `per_page` a page (at least 1),
/// narrowed to `i32`.
pub open spec fn last_page_spec(total: i64, per_page: i32) -> i32 {
    let pages = trunc_div(total + per_page - 1, per_page as int);
    (if pages < 1 {
        1
    } else {
        pages
    }) as i32
}

/// The last page for `total` items.
pub fn last_page(total: i64, per_page: i32) -> (r: i32)
    requires
        per_page > 0,
        total + per_page - 1 <= i64::MAX,
    ensures
        r == last_page_spec(total, per_page),
{
    let pages = (total + (per_page as i64 - 1)) / (per_page as i64);
    let p = if pages < 1 {
        1
    } else {
        pages
    };
    p as i32
}

/// After a page of the asset picker loaded: a request past the end that
/// came back empty moves to the last page.
pub fn picker_page_fix(returned_empty: bool, requested: i32, total: i64, per_page: i32) -> (r:
    Option<i32>)
    requires
        per_page > 0,
        total + per_page - 1 <= i64::MAX,
    ensures
        r == if returned_empty && requested > last_page_spec(total, per_page) {
            Some(last_page_spec(total, per_page))
        } else {
            None::<i32>
        },
{
    let last = last_page(total, per_page);
    if returned_empty && requested > last {
        Some(last)
    } else {
        None
    }
}

/// The picker's jump target, never below the first page.
pub fn jump_page(requested: i32) -> (r: i32)
    ensures
        r == if requested < 1 {
            1
        } else {
            requested
        },
{
    if requested < 1 {
        1
    } else {
        requested
    }
}

/// Paging is shown once there is more than one page's worth of items.
pub fn show_pagination(total: i64, per_page: i32) -> (r: bool)
    ensures
        r == (total > per_page),
{
    total > per_page as i64
}

/// The comments page number from the route, at least 1.
pub fn route_page(page: i32) -> (r: i32)
    ensures
        r == if page < 1 {
            1
        } else {
            page
        },
{
    if page < 1 {
        1
    } else {
        page
    }
}

/// The comments page's "previous" link: `None` for the base route (page 1),
/// else the page before.
pub fn comments_prev_route(page: i32) -> (r: Option<i32>)
    requires
        page >= 1,
    ensures
        page - 1 <= 1 ==> r is None,
        page - 1 > 1 ==> r == Some((page - 1) as i32),
{
    if page - 1 <= 1 {
        None
    } else {
        Some(page - 1)
    }
}

/// The header checkbox clicked twice on a fully selected page restores the
/// selection: the page's ids leave and come back, other pages' stay.
pub proof fn lemma_toggle_all_twice(selected: Set<i64>, page: Set<i64>)
    requires
        page.subset_of(selected),
    ensures
        selected.difference(page).union(page) == selected,
{
    assert(selected.difference(page).union(page) =~= selected);
}

} // verus!
