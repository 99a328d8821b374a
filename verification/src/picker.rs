//! The asset picker dialog (cover or avatar "choose from the library"):
//! its opening and closing, the debounced search, paging, the in-dialog
//! upload, and the request generations that let only the latest answer
//! land.

use vstd::prelude::*;

use crate::listing::{last_page, last_page_spec};
use crate::text::str_eq;

verus! {

/// Assets per page of the picker (as the library page and the server).
pub const PICKER_PER_PAGE: i32 = 60;

/// An asset of the picker's grid.
pub struct PickerAsset {
    pub id: String,
    pub path: String,
    pub filename: String,
    pub alt: Option<String>,
}

/// The next request generation (wrapping).
pub open spec fn next_gen(g: u64) -> u64 {
    if g == u64::MAX {
        0
    } else {
        (g + 1) as u64
    }
}

fn bump(g: u64) -> (r: u64)
    ensures
        r == next_gen(g),
{
    if g == u64::MAX {
        0
    } else {
        g + 1
    }
}

/// What a page request brought back.
pub enum PickerPage {
    Loaded { assets: Vec<PickerAsset>, total: i64 },
    Failed(String),
}

/// What the dialog's body shows.
#[derive(Clone, Copy, Debug, PartialEq, Eq, Structural)]
pub enum PickerBody {
    /// "加载失败：…".
    Error,
    /// "加载中...", nothing to show yet.
    Loading,
    /// "素材库为空…".
    Empty,
    /// The grid (with the upload tile and the fresh upload, if any).
    Grid,
}

/// The picker's state.
pub struct PickerState {
    pub visible: bool,
    /// Opened at least once (a close before any open does nothing).
    pub opened: bool,
    /// Playing the exit animation.
    pub closing: bool,
    /// The latest request generation; answers of older ones are dropped.
    pub generation: u64,
    pub query: String,
    /// The query last committed by the debounce.
    pub committed: String,
    pub page: i32,
    pub loading: bool,
    pub error: Option<String>,
    pub total: i64,
    pub assets: Vec<PickerAsset>,
    pub uploading: bool,
    /// An upload that finished in the dialog, waiting to be picked.
    pub uploaded_url: Option<String>,
}

impl PickerState {
    /// Closed, first page, nothing loaded.
    pub fn new() -> (r: PickerState)
        ensures
            !r.visible && !r.opened && !r.closing,
            r.generation == 0,
            r.page == 1,
            !r.loading,
            r.error is None,
            r.total == 0,
            r.assets@.len() == 0,
            !r.uploading,
            r.uploaded_url is None,
            r.query@.len() == 0,
            r.committed@.len() == 0,
    {
        PickerState {
            visible: false,
            opened: false,
            closing: false,
            generation: 0,
            query: String::new(),
            committed: String::new(),
            page: 1,
            loading: false,
            error: None,
            total: 0,
            assets: Vec::new(),
            uploading: false,
            uploaded_url: None,
        }
    }

    /// The dialog is in the DOM while visible or while its exit plays.
    pub fn renders(&self) -> (r: bool)
        ensures
            r == (self.visible || self.closing),
    {
        self.visible || self.closing
    }

    /// Opening: a fresh upload from last time is forgotten.
    pub fn open(&mut self)
        ensures
            final(self).visible && final(self).opened && !final(self).closing,
            final(self).uploaded_url is None,
            final(self).generation == old(self).generation,
            final(self).page == old(self).page,
            final(self).query == old(self).query,
            final(self).committed == old(self).committed,
            final(self).loading == old(self).loading,
            final(self).assets == old(self).assets,
            final(self).total == old(self).total,
            final(self).uploading == old(self).uploading,
            final(self).error == old(self).error,
    {
        self.visible = true;
        self.opened = true;
        self.closing = false;
        self.uploaded_url = None;
    }

    /// Closing (overlay, close button, or a pick): the exit animation
    /// starts; once opened, pending answers are dropped and the next
    /// opening starts on the first page.
    pub fn close(&mut self)
        ensures
            !final(self).visible,
            final(self).closing,
            final(self).opened == old(self).opened,
            old(self).opened ==> final(self).generation == next_gen(old(self).generation)
                && final(self).page == 1,
            !old(self).opened ==> final(self).generation == old(self).generation
                && final(self).page == old(self).page,
            final(self).query == old(self).query,
            final(self).committed == old(self).committed,
            final(self).loading == old(self).loading,
            final(self).assets == old(self).assets,
            final(self).total == old(self).total,
            final(self).uploading == old(self).uploading,
            final(self).uploaded_url == old(self).uploaded_url,
            final(self).error == old(self).error,
    {
        self.visible = false;
        self.closing = true;
        if self.opened {
            self.generation = bump(self.generation);
            self.page = 1;
        }
    }

    /// The exit animation ended.
    pub fn exit_elapsed(&mut self)
        ensures
            !final(self).closing,
            final(self).visible == old(self).visible,
            final(self).generation == old(self).generation,
            final(self).page == old(self).page,
            final(self).assets == old(self).assets,
    {
        self.closing = false;
    }

    /// Typing in the search box: answers in flight are dropped.
    pub fn type_query(&mut self, q: String)
        ensures
            final(self).query == q,
            final(self).generation == next_gen(old(self).generation),
            final(self).committed == old(self).committed,
            final(self).page == old(self).page,
            final(self).visible == old(self).visible,
            final(self).loading == old(self).loading,
            final(self).assets == old(self).assets,
    {
        self.query = q;
        self.generation = bump(self.generation);
    }

    /// The search pause for `fired` ended: if nothing was typed since, the
    /// query is committed and the first page shown.
    pub fn debounce_elapsed(&mut self, fired: &str)
        ensures
            old(self).query@ == fired@ ==> final(self).committed@ == fired@ && final(self).page == 1,
            old(self).query@ != fired@ ==> final(self).committed == old(self).committed
                && final(self).page == old(self).page,
            final(self).query == old(self).query,
            final(self).generation == old(self).generation,
            final(self).visible == old(self).visible,
            final(self).loading == old(self).loading,
            final(self).assets == old(self).assets,
    {
        if str_eq(self.query.as_str(), fired) {
            if !str_eq(self.committed.as_str(), fired) {
                self.committed = String::from_str(fired);
            }
            self.page = 1;
        }
    }

    /// A load is due (opened, or the query or page changed): when visible,
    /// a new generation is taken and returned as the request's id.
    pub fn begin_load(&mut self) -> (id: Option<u64>)
        ensures
            old(self).visible ==> id == Some(next_gen(old(self).generation)) && final(self).generation
                == next_gen(old(self).generation),
            !old(self).visible ==> id is None && final(self).generation == old(self).generation,
            final(self).visible == old(self).visible,
            final(self).page == old(self).page,
            final(self).query == old(self).query,
            final(self).committed == old(self).committed,
            final(self).loading == old(self).loading,
            final(self).assets == old(self).assets,
            final(self).total == old(self).total,
            final(self).error == old(self).error,
    {
        if self.visible {
            let id = bump(self.generation);
            self.generation = id;
            Some(id)
        } else {
            None
        }
    }

    /// The request task starts: unless superseded meanwhile, it shows the
    /// loading state. Returns whether it goes on.
    pub fn load_started(&mut self, id: u64) -> (go: bool)
        ensures
            go == (old(self).generation == id),
            go ==> final(self).loading && final(self).error is None,
            !go ==> *final(self) == *old(self),
            final(self).generation == old(self).generation,
            final(self).page == old(self).page,
            final(self).assets == old(self).assets,
            final(self).total == old(self).total,
            final(self).visible == old(self).visible,
    {
        if self.generation != id {
            return false;
        }
        self.loading = true;
        self.error = None;
        true
    }

    /// The answer of request `id` for page `requested`. A superseded
    /// request changes nothing. An empty page past the end moves to the
    /// last page (whose load follows; the loading state stays). Otherwise
    /// the page or the error is shown and loading ends.
    pub fn load_finished(&mut self, id: u64, requested: i32, answer: PickerPage)
        requires
            old(self).generation == id ==> (answer matches PickerPage::Loaded { total, .. } ==> total
                + PICKER_PER_PAGE - 1 <= i64::MAX),
        ensures
            old(self).generation != id ==> *final(self) == *old(self),
            old(self).generation == id ==> match answer {
                PickerPage::Loaded { assets, total } => if assets@.len() == 0 && requested
                    > last_page_spec(total, PICKER_PER_PAGE) {
                    &&& final(self).page == last_page_spec(total, PICKER_PER_PAGE)
                    &&& final(self).loading == old(self).loading
                    &&& final(self).assets == old(self).assets
                    &&& final(self).total == old(self).total
                    &&& final(self).error == old(self).error
                } else {
                    &&& final(self).assets == assets
                    &&& final(self).total == total
                    &&& final(self).error is None
                    &&& !final(self).loading
                    &&& final(self).page == old(self).page
                },
                PickerPage::Failed(e) => {
                    &&& final(self).error == Some(e)
                    &&& !final(self).loading
                    &&& final(self).assets == old(self).assets
                    &&& final(self).total == old(self).total
                    &&& final(self).page == old(self).page
                },
            },
            final(self).generation == old(self).generation,
            final(self).visible == old(self).visible,
            final(self).query == old(self).query,
            final(self).uploaded_url == old(self).uploaded_url,
            final(self).uploading == old(self).uploading,
    {
        if self.generation != id {
            return;
        }
        match answer {
            PickerPage::Loaded { assets, total } => {
                let last = last_page(total, PICKER_PER_PAGE);
                if assets.len() == 0 && requested > last {
                    self.page = last;
                    return;
                }
                self.assets = assets;
                self.total = total;
                self.error = None;
            },
            PickerPage::Failed(e) => {
                self.error = Some(e);
            },
        }
        self.loading = false;
    }

    /// The URL a grid tile hands back: `/uploads/<path>`.
    pub fn tile_url(&self, index: usize) -> (r: String)
        requires
            index < self.assets@.len(),
        ensures
            r@ == "/uploads/"@ + self.assets@[index as int].path@,
    {
        let mut out = String::from_str("/uploads/");
        out.append(self.assets[index].path.as_str());
        out
    }

    /// A tile was clicked: its URL is picked and the dialog closes.
    pub fn pick_tile(&mut self, index: usize) -> (url: String)
        requires
            index < old(self).assets@.len(),
        ensures
            url@ == "/uploads/"@ + old(self).assets@[index as int].path@,
            !final(self).visible,
            final(self).closing,
            old(self).opened ==> final(self).generation == next_gen(old(self).generation)
                && final(self).page == 1,
    {
        let url = self.tile_url(index);
        self.close();
        url
    }

    /// The fresh upload's tile was clicked: its URL is picked and the
    /// dialog closes. Without a fresh upload nothing happens.
    pub fn pick_uploaded(&mut self) -> (url: Option<String>)
        ensures
            url == old(self).uploaded_url,
            url is Some ==> !final(self).visible && final(self).closing,
            url is None ==> *final(self) == *old(self),
    {
        match &self.uploaded_url {
            Some(u) => {
                let u = u.clone();
                self.close();
                Some(u)
            },
            None => None,
        }
    }

    /// A file was chosen for upload: refused while another uploads.
    pub fn upload_started(&mut self) -> (go: bool)
        ensures
            go == !old(self).uploading,
            go ==> final(self).uploading && final(self).error is None,
            !go ==> *final(self) == *old(self),
            final(self).uploaded_url == old(self).uploaded_url,
            final(self).assets == old(self).assets,
    {
        if self.uploading {
            return false;
        }
        self.uploading = true;
        self.error = None;
        true
    }

    /// The upload ended: its URL waits in the grid to be picked, or its
    /// error is shown.
    pub fn upload_finished(&mut self, result: Result<String, String>)
        ensures
            !final(self).uploading,
            result matches Ok(u) ==> final(self).uploaded_url == Some(u) && final(self).error
                == old(self).error,
            result matches Err(e) ==> final(self).error == Some(e) && final(self).uploaded_url
                == old(self).uploaded_url,
            final(self).assets == old(self).assets,
            final(self).visible == old(self).visible,
    {
        match result {
            Ok(u) => {
                self.uploaded_url = Some(u);
            },
            Err(e) => {
                self.error = Some(e);
            },
        }
        self.uploading = false;
    }

    /// "Previous", ignored while loading.
    pub fn prev(&mut self)
        requires
            old(self).page > i32::MIN,
        ensures
            old(self).loading ==> final(self).page == old(self).page,
            !old(self).loading ==> final(self).page == (if old(self).page - 1 < 1 {
                1
            } else {
                old(self).page - 1
            }),
            final(self).generation == old(self).generation,
    {
        if !self.loading {
            self.page = if self.page - 1 < 1 {
                1
            } else {
                self.page - 1
            };
        }
    }

    /// "Next", ignored while loading.
    pub fn next(&mut self)
        requires
            old(self).page < i32::MAX,
        ensures
            old(self).loading ==> final(self).page == old(self).page,
            !old(self).loading ==> final(self).page == old(self).page + 1,
            final(self).generation == old(self).generation,
    {
        if !self.loading {
            self.page = self.page + 1;
        }
    }

    /// A page number picked, ignored while loading; never below 1.
    pub fn jump(&mut self, target: i32)
        ensures
            old(self).loading ==> final(self).page == old(self).page,
            !old(self).loading ==> final(self).page == (if target < 1 {
                1
            } else {
                target
            }),
            final(self).generation == old(self).generation,
    {
        if !self.loading {
            self.page = if target < 1 {
                1
            } else {
                target
            };
        }
    }

    /// The body: the error first; the loading note while nothing is shown
    /// and nothing uploads; the empty note when there is nothing at all;
    /// else the grid.
    pub fn body(&self) -> (r: PickerBody)
        ensures
            self.error is Some ==> r == PickerBody::Error,
            self.error is None && self.loading && self.assets@.len() == 0 && !self.uploading ==> r
                == PickerBody::Loading,
            self.error is None && !(self.loading && self.assets@.len() == 0 && !self.uploading)
                && self.assets@.len() == 0 && !self.uploading && self.uploaded_url is None ==> r
                == PickerBody::Empty,
            self.error is None && !(self.loading && self.assets@.len() == 0 && !self.uploading) && !(
            self.assets@.len() == 0 && !self.uploading && self.uploaded_url is None) ==> r
                == PickerBody::Grid,
    {
        if self.error.is_some() {
            PickerBody::Error
        } else if self.loading && self.assets.len() == 0 && !self.uploading {
            PickerBody::Loading
        } else if self.assets.len() == 0 && !self.uploading && self.uploaded_url.is_none() {
            PickerBody::Empty
        } else {
            PickerBody::Grid
        }
    }

    /// The translucent "加载中…" over a grid being replaced.
    pub fn loading_overlay(&self) -> (r: bool)
        ensures
            r == (self.loading && self.assets@.len() > 0),
    {
        self.loading && self.assets.len() > 0
    }

    /// Paging shows beyond one page of assets.
    pub fn shows_pagination(&self) -> (r: bool)
        ensures
            r == (self.total > PICKER_PER_PAGE),
    {
        self.total > PICKER_PER_PAGE as i64
    }
}

/// Taking a new generation always supersedes the current one: after a
/// later load, a keystroke or a close, the answer to the earlier request
/// is dropped (see `load_finished`).
pub proof fn lemma_new_generation_supersedes(g: u64)
    ensures
        next_gen(g) != g,
{
}

} // verus!
