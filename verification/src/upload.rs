//! The asset upload modal's queue: pre-validation of picked files, the
//! shared FIFO that a bounded pool of workers drains, per-batch completion
//! tracking, and the per-row status machine (queued, uploading, done,
//! failed), including retry and removal.
//!
//! The browser file handles themselves stay with the caller, keyed by the
//! ids this board hands out; the board records which ids still hold one.

use vstd::prelude::*;

use std::collections::VecDeque;

use crate::text::str_eq;

verus! {

/// Largest accepted file, in bytes (5 MiB), the server's own limit.
pub const MAX_UPLOAD_BYTES: u64 = 5242880;

/// Smallest and largest worker count the pool is clamped to.
pub const MIN_WORKERS: i32 = 1;
pub const MAX_WORKERS: i32 = 32;

/// Pause between two uploads of one worker, per unit of concurrency (ms).
pub const PAUSE_PER_WORKER_MS: u32 = 500;

/// The MIME types the server accepts.
pub open spec fn allowed_mime(m: Seq<char>) -> bool {
    ||| m == "image/jpeg"@
    ||| m == "image/png"@
    ||| m == "image/gif"@
    ||| m == "image/webp"@
}

/// The MIME types the server accepts, in the order the file dialog lists
/// them.
pub fn allowed_mime_types() -> (r: [&'static str; 4])
    ensures
        r@[0]@ == "image/jpeg"@,
        r@[1]@ == "image/png"@,
        r@[2]@ == "image/gif"@,
        r@[3]@ == "image/webp"@,
        forall|i: int| 0 <= i < 4 ==> allowed_mime(#[trigger] r@[i]@),
{
    ["image/jpeg", "image/png", "image/gif", "image/webp"]
}

/// Row text for a file of a type the server refuses.
pub open spec fn unsupported_type_text() -> Seq<char> {
    "不支持的文件类型（仅 JPEG / PNG / GIF / WebP）"@
}

/// Row text for a file over the size limit.
pub open spec fn oversize_text() -> Seq<char> {
    "大小超过 5MB 限制"@
}

/// The verdict of the pre-check: `None` when the file may be uploaded,
/// otherwise the text shown on its row. The type is checked first.
pub open spec fn upload_verdict(mime: Seq<char>, size: u64) -> Option<Seq<char>> {
    if !allowed_mime(mime) {
        Some(unsupported_type_text())
    } else if size > MAX_UPLOAD_BYTES {
        Some(oversize_text())
    } else {
        None
    }
}

/// The size limit holds for every type: a file over it is refused
/// whatever its MIME type, and one of an accepted type is refused for its
/// size exactly when it is over the limit. A file passes only when its
/// type is on the whitelist and its size within the limit.
pub proof fn lemma_size_limit_for_every_type(mime: Seq<char>, size: u64)
    ensures
        size > MAX_UPLOAD_BYTES ==> upload_verdict(mime, size) is Some,
        allowed_mime(mime) && size > MAX_UPLOAD_BYTES ==> upload_verdict(mime, size) == Some(
            oversize_text(),
        ),
        !allowed_mime(mime) ==> upload_verdict(mime, size) == Some(unsupported_type_text()),
        upload_verdict(mime, size) is None <==> (allowed_mime(mime) && size <= MAX_UPLOAD_BYTES),
{
}

/// Pre-checks one picked file before any request is made: the type must be
/// on the whitelist, then the size within the limit.
pub fn validate_file(mime: &str, size: u64) -> (r: Result<(), String>)
    ensures
        r is Ok <==> upload_verdict(mime@, size) is None,
        r matches Err(m) ==> upload_verdict(mime@, size) == Some(m@),
{
    let ok_type = str_eq(mime, "image/jpeg") || str_eq(mime, "image/png") || str_eq(
        mime,
        "image/gif",
    ) || str_eq(mime, "image/webp");
    if !ok_type {
        return Err(String::from_str("不支持的文件类型（仅 JPEG / PNG / GIF / WebP）"));
    }
    if size > MAX_UPLOAD_BYTES {
        return Err(String::from_str("大小超过 5MB 限制"));
    }
    Ok(())
}

/// `v` clamped into `lo..=hi`.
pub open spec fn clamp_spec(v: int, lo: int, hi: int) -> int {
    if v < lo {
        lo
    } else if v > hi {
        hi
    } else {
        v
    }
}

/// The worker count a concurrency setting stands for (clamped to 1..=32).
pub fn worker_target(concurrency: i32) -> (r: u32)
    ensures
        r == clamp_spec(concurrency as int, MIN_WORKERS as int, MAX_WORKERS as int),
{
    if concurrency < MIN_WORKERS {
        MIN_WORKERS as u32
    } else if concurrency > MAX_WORKERS {
        MAX_WORKERS as u32
    } else {
        concurrency as u32
    }
}

/// The pause a worker takes after an upload while the queue is not empty:
/// 500 ms times the clamped concurrency, so that N parallel workers together
/// stay at two uploads per second.
pub fn pause_after_upload(queue_empty: bool, concurrency: i32) -> (r: Option<u32>)
    ensures
        queue_empty ==> r is None,
        !queue_empty ==> r == Some(
            (PAUSE_PER_WORKER_MS * clamp_spec(concurrency as int, 1, 32)) as u32,
        ),
{
    if queue_empty {
        None
    } else {
        let n = worker_target(concurrency);
        Some(PAUSE_PER_WORKER_MS * n)
    }
}

/// With the clamped concurrency `n`, a worker pauses 500·n ms after each
/// upload while jobs remain, so `n` workers side by side start at most `n`
/// uploads per 500·n ms: together no more than two a second, whatever the
/// setting.
pub proof fn lemma_aggregate_rate(concurrency: i32)
    ensures
        ({
            let n = clamp_spec(concurrency as int, MIN_WORKERS as int, MAX_WORKERS as int);
            let pause = (PAUSE_PER_WORKER_MS * n) as u32;
            &&& 1 <= n <= 32
            &&& pause == 500 * n
            &&& n * 1000 <= 2 * pause
        }),
{
}

/// While the dialog is shown, Escape closes it; other keys, and any key
/// while it is hidden, do nothing.
pub fn escape_closes(visible: bool, key: &str) -> (r: bool)
    ensures
        r == (visible && key@ == "Escape"@),
{
    visible && str_eq(key, "Escape")
}

/// A paste while the dialog is shown, carrying `file_count` files (`None`:
/// no clipboard data or no file list). The dialog takes it (suppressing
/// the default and enqueuing the files) only when it is shown and files
/// came along; a text-only paste is left to the focused field.
pub fn paste_takes_files(visible: bool, file_count: Option<u32>) -> (r: bool)
    ensures
        r == (visible && (file_count matches Some(n) && n > 0)),
{
    match file_count {
        Some(n) => visible && n > 0,
        None => false,
    }
}

/// State of one row.
pub enum UploadStatus {
    Queued,
    Uploading,
    Done,
    Failed(String),
}

/// One row of the upload list.
pub struct UploadItem {
    pub id: u64,
    pub name: String,
    /// Human-readable size, formatted when the file was picked.
    pub size: String,
    pub status: UploadStatus,
    /// The user dismissed the row; it plays its exit animation before it
    /// is purged.
    pub removing: bool,
}

/// A picked file, as far as the board needs to know it.
pub struct PickedFile {
    pub name: String,
    pub size_label: String,
    pub mime: String,
    pub size: u64,
}

/// A queued upload: the row id and the batch (one drop, pick or paste) it
/// belongs to.
#[derive(Clone, Copy, Debug, PartialEq, Eq, Structural)]
pub struct Job {
    pub id: u64,
    pub batch: usize,
}

/// Completion tracking of one batch.
#[derive(Clone, Copy, Debug, PartialEq, Eq, Structural)]
pub struct Batch {
    /// Jobs of the batch not yet finished.
    pub remaining: usize,
    /// At least one upload of the batch succeeded.
    pub any_done: bool,
}

/// What a worker is told to do next.
pub enum WorkerStep {
    /// The queue is empty: the worker leaves the pool.
    Exit,
    /// Upload the file held under `job.id`.
    Upload(Job),
    /// The row was removed meanwhile: nothing to upload, but the job still
    /// counts towards its batch.
    Skip(Job),
}

/// What finishing a job asks of the caller.
pub struct JobDone {
    /// Call the "uploaded" callback (the batch completed with a success).
    pub notify: bool,
    /// Sleep this long before taking the next job.
    pub pause_ms: Option<u32>,
}

/// Result of enqueuing a pick: the ids given to the files, in order, and
/// how many workers to start.
pub struct Enqueued {
    pub ids: Vec<u64>,
    pub spawn: u32,
}

/// Number of jobs of batch `b` in `s`.
pub open spec fn count_batch(s: Seq<Job>, b: int) -> nat
    decreases s.len(),
{
    if s.len() == 0 {
        0
    } else {
        count_batch(s.drop_last(), b) + (if s.last().batch == b {
            1nat
        } else {
            0nat
        })
    }
}

proof fn lemma_count_concat(a: Seq<Job>, c: Seq<Job>, b: int)
    ensures
        count_batch(a + c, b) == count_batch(a, b) + count_batch(c, b),
    decreases c.len(),
{
    if c.len() == 0 {
        assert(a + c =~= a);
    } else {
        assert((a + c).drop_last() =~= a + c.drop_last());
        lemma_count_concat(a, c.drop_last(), b);
    }
}

proof fn lemma_count_remove(s: Seq<Job>, i: int, b: int)
    requires
        0 <= i < s.len(),
    ensures
        count_batch(s, b) == count_batch(s.remove(i), b) + (if s[i].batch == b {
            1nat
        } else {
            0nat
        }),
{
    let pre = s.subrange(0, i);
    let post = s.subrange(i + 1, s.len() as int);
    assert(s =~= pre + seq![s[i]] + post);
    assert(s.remove(i) =~= pre + post);
    lemma_count_concat(pre + seq![s[i]], post, b);
    lemma_count_concat(pre, seq![s[i]], b);
    lemma_count_concat(pre, post, b);
    let one = seq![s[i]];
    assert(one.drop_last() =~= Seq::<Job>::empty());
    assert(count_batch(Seq::<Job>::empty(), b) == 0);
    assert(count_batch(one, b) == (if s[i].batch == b {
        1nat
    } else {
        0nat
    }));
}

/// The status an item gets from a validation result.
pub open spec fn status_for(r: Result<(), String>) -> UploadStatus {
    match r {
        Ok(()) => UploadStatus::Queued,
        Err(m) => UploadStatus::Failed(m),
    }
}

/// The board of the upload modal.
pub struct UploadBoard {
    pub items: Vec<UploadItem>,
    pub next_id: u64,
    /// Ids whose file handle is still held (valid picks not removed).
    pub handles: Vec<u64>,
    pub queue: VecDeque<Job>,
    /// Jobs taken by a worker and not yet finished.
    pub in_flight: Vec<Job>,
    pub batches: Vec<Batch>,
    /// Workers currently draining the queue.
    pub active_workers: u32,
}

/// `items` with `items[k].id` strictly increasing and at most `next`.
pub open spec fn ids_increasing(items: Seq<UploadItem>, next: u64) -> bool {
    &&& forall|i: int, j: int| 0 <= i < j < items.len() ==> items[i].id < items[j].id
    &&& forall|i: int| 0 <= i < items.len() ==> items[i].id <= next
}

impl UploadBoard {
    /// Well-formedness: row ids are unique (increasing), every job names an
    /// existing batch, and each batch's `remaining` is the number of its jobs
    /// still queued or in flight.
    pub open spec fn wf(&self) -> bool {
        &&& ids_increasing(self.items@, self.next_id)
        &&& forall|k: int| 0 <= k < self.queue@.len() ==> #[trigger] self.queue@[k].batch
            < self.batches@.len()
        &&& forall|k: int| 0 <= k < self.in_flight@.len() ==> #[trigger] self.in_flight@[k].batch
            < self.batches@.len()
        &&& forall|b: int|
            0 <= b < self.batches@.len() ==> #[trigger] self.batches@[b].remaining == count_batch(
                self.queue@,
                b,
            ) + count_batch(self.in_flight@, b)
    }

    /// An empty board.
    pub fn new() -> (r: UploadBoard)
        ensures
            r.wf(),
            r.items@.len() == 0,
            r.queue@.len() == 0,
            r.in_flight@.len() == 0,
            r.handles@.len() == 0,
            r.batches@.len() == 0,
            r.next_id == 0,
            r.active_workers == 0,
    {
        UploadBoard {
            items: Vec::new(),
            next_id: 0,
            handles: Vec::new(),
            queue: VecDeque::new(),
            in_flight: Vec::new(),
            batches: Vec::new(),
            active_workers: 0,
        }
    }
}


/// `items` after every row with id `id` got status `st`.
pub open spec fn with_status(items: Seq<UploadItem>, id: u64, st: UploadStatus) -> Seq<UploadItem> {
    items.map_values(
        |it: UploadItem|
            if it.id == id {
                UploadItem { status: st, ..it }
            } else {
                it
            },
    )
}

/// `items` after every row with id `id` was marked as leaving.
pub open spec fn with_removing(items: Seq<UploadItem>, id: u64) -> Seq<UploadItem> {
    items.map_values(
        |it: UploadItem|
            if it.id == id {
                UploadItem { removing: true, ..it }
            } else {
                it
            },
    )
}

/// `s` without the occurrences of `x`, order kept.
pub open spec fn without_id(s: Seq<u64>, x: u64) -> Seq<u64>
    decreases s.len(),
{
    if s.len() == 0 {
        s
    } else if s.last() == x {
        without_id(s.drop_last(), x)
    } else {
        without_id(s.drop_last(), x).push(s.last())
    }
}

/// `items` without the rows of id `id`, order kept.
pub open spec fn without_row(items: Seq<UploadItem>, id: u64) -> Seq<UploadItem>
    decreases items.len(),
{
    if items.len() == 0 {
        items
    } else if items.last().id == id {
        without_row(items.drop_last(), id)
    } else {
        without_row(items.drop_last(), id).push(items.last())
    }
}

proof fn lemma_without_row_increasing(items: Seq<UploadItem>, id: u64, next: u64)
    requires
        ids_increasing(items, next),
    ensures
        ids_increasing(without_row(items, id), next),
        forall|k: int|
            0 <= k < without_row(items, id).len() ==> exists|j: int|
                0 <= j < items.len() && #[trigger] without_row(items, id)[k] == items[j],
    decreases items.len(),
{
    if items.len() > 0 {
        let p = items.drop_last();
        lemma_without_row_increasing(p, id, next);
        let w = without_row(p, id);
        if items.last().id != id {
            let r = w.push(items.last());
            assert forall|k: int| 0 <= k < r.len() implies exists|j: int|
                0 <= j < items.len() && #[trigger] r[k] == items[j] by {
                if k < w.len() {
                    let j = choose|j: int| 0 <= j < p.len() && w[k] == p[j];
                    assert(r[k] == items[j]);
                } else {
                    assert(r[k] == items[items.len() - 1]);
                }
            }
            assert forall|a: int, c: int| 0 <= a < c < r.len() implies r[a].id < r[c].id by {
                if c == r.len() - 1 {
                    let j = choose|j: int| 0 <= j < p.len() && w[a] == p[j];
                    assert(r[a] == items[j]);
                } else {
                    assert(r[a] == w[a] && r[c] == w[c]);
                }
            }
        } else {
            assert forall|k: int| 0 <= k < w.len() implies exists|j: int|
                0 <= j < items.len() && #[trigger] w[k] == items[j] by {
                let j = choose|j: int| 0 <= j < p.len() && w[k] == p[j];
                assert(w[k] == items[j]);
            }
        }
    }
}

impl UploadBoard {
    /// Index of the row with id `id`.
    pub fn position_of(&self, id: u64) -> (r: Option<usize>)
        ensures
            match r {
                Some(i) => i < self.items@.len() && self.items@[i as int].id == id,
                None => forall|k: int| 0 <= k < self.items@.len() ==> self.items@[k].id != id,
            },
    {
        let n = self.items.len();
        let mut i: usize = 0;
        while i < n
            invariant
                n == self.items@.len(),
                i <= n,
                forall|k: int| 0 <= k < i ==> self.items@[k].id != id,
            decreases n - i,
        {
            if self.items[i].id == id {
                return Some(i);
            }
            i = i + 1;
        }
        None
    }

    /// Sets the status of the row with id `id` (none when it is gone).
    pub fn set_status(&mut self, id: u64, st: UploadStatus)
        requires
            old(self).wf(),
        ensures
            final(self).wf(),
            final(self).items@ == with_status(old(self).items@, id, st),
            final(self).queue == old(self).queue,
            final(self).in_flight == old(self).in_flight,
            final(self).batches == old(self).batches,
            final(self).handles == old(self).handles,
            final(self).next_id == old(self).next_id,
            final(self).active_workers == old(self).active_workers,
    {
        let ghost before = self.items@;
        match self.position_of(id) {
            Some(i) => {
                let mut it = self.items.remove(i);
                it.status = st;
                self.items.insert(i, it);
                proof {
                    assert forall|k: int| 0 <= k < before.len() implies #[trigger] self.items@[k]
                        == with_status(before, id, st)[k] by {
                        if k != i {
                            if k > i {
                                assert(before[k].id > before[i as int].id);
                            } else {
                                assert(before[k].id < before[i as int].id);
                            }
                        }
                    }
                    assert(self.items@ =~= with_status(before, id, st));
                }
            },
            None => {
                proof {
                    assert(self.items@ =~= with_status(before, id, st));
                }
            },
        }
    }

    /// `id` still holds a file handle.
    pub fn has_handle(&self, id: u64) -> (r: bool)
        ensures
            r == self.handles@.contains(id),
    {
        let n = self.handles.len();
        let mut i: usize = 0;
        while i < n
            invariant
                n == self.handles@.len(),
                i <= n,
                forall|k: int| 0 <= k < i ==> self.handles@[k] != id,
            decreases n - i,
        {
            if self.handles[i] == id {
                return true;
            }
            i = i + 1;
        }
        false
    }
}


/// Ids given to the accepted files of a pick whose ids start after `base`.
pub open spec fn accepted_ids(files: Seq<PickedFile>, base: u64) -> Seq<u64>
    decreases files.len(),
{
    if files.len() == 0 {
        Seq::empty()
    } else {
        let p = accepted_ids(files.drop_last(), base);
        if upload_verdict(files.last().mime@, files.last().size) is None {
            p.push((base + files.len()) as u64)
        } else {
            p
        }
    }
}

/// The jobs of one batch for the given ids.
pub open spec fn jobs_of(ids: Seq<u64>, batch: usize) -> Seq<Job> {
    ids.map_values(|id: u64| Job { id, batch })
}

/// `item` is the fresh row for picked file `f` under id `id`.
pub open spec fn row_for(item: UploadItem, f: PickedFile, id: u64) -> bool {
    &&& item.id == id
    &&& item.name@ == f.name@
    &&& item.size@ == f.size_label@
    &&& !item.removing
    &&& match upload_verdict(f.mime@, f.size) {
        None => item.status is Queued,
        Some(t) => (item.status matches UploadStatus::Failed(m) && m@ == t),
    }
}

proof fn lemma_count_none(s: Seq<Job>, b: int)
    requires
        forall|k: int| 0 <= k < s.len() ==> #[trigger] s[k].batch != b,
    ensures
        count_batch(s, b) == 0,
    decreases s.len(),
{
    if s.len() > 0 {
        lemma_count_none(s.drop_last(), b);
    }
}

proof fn lemma_count_all(s: Seq<Job>, b: int)
    requires
        forall|k: int| 0 <= k < s.len() ==> #[trigger] s[k].batch == b,
    ensures
        count_batch(s, b) == s.len(),
    decreases s.len(),
{
    if s.len() > 0 {
        lemma_count_all(s.drop_last(), b);
    }
}

proof fn lemma_accepted_bounded(files: Seq<PickedFile>, base: u64)
    requires
        base + files.len() <= u64::MAX,
    ensures
        accepted_ids(files, base).len() <= files.len(),
    decreases files.len(),
{
    if files.len() > 0 {
        lemma_accepted_bounded(files.drop_last(), base);
    }
}

impl UploadBoard {
    /// Takes a pick (drop, file dialog or paste): every file gets the next
    /// id and a row; a file that fails the pre-check is marked failed at once
    /// and never sent; the accepted ones keep their handle and are queued as
    /// one new batch. Then workers are started until the pool holds the
    /// clamped concurrency. A pick with no accepted file starts nothing.
    pub fn enqueue(&mut self, files: &Vec<PickedFile>, concurrency: i32) -> (r: Enqueued)
        requires
            old(self).wf(),
            old(self).next_id + files@.len() <= u64::MAX,
        ensures
            final(self).wf(),
            final(self).next_id == old(self).next_id + files@.len(),
            r.ids@.len() == files@.len(),
            forall|k: int| 0 <= k < files@.len() ==> #[trigger] r.ids@[k] == old(self).next_id + k + 1,
            final(self).items@.len() == old(self).items@.len() + files@.len(),
            forall|k: int| 0 <= k < old(self).items@.len() ==> #[trigger] final(self).items@[k] == old(
                self,
            ).items@[k],
            forall|k: int|
                0 <= k < files@.len() ==> row_for(
                    #[trigger] final(self).items@[old(self).items@.len() + k],
                    files@[k],
                    (old(self).next_id + k + 1) as u64,
                ),
            final(self).in_flight == old(self).in_flight,
            ({
                let acc = accepted_ids(files@, old(self).next_id);
                if acc.len() == 0 {
                    &&& final(self).handles == old(self).handles
                    &&& final(self).queue == old(self).queue
                    &&& final(self).batches == old(self).batches
                    &&& final(self).active_workers == old(self).active_workers
                    &&& r.spawn == 0
                } else {
                    let target = clamp_spec(concurrency as int, 1, 32);
                    &&& final(self).handles@ == old(self).handles@ + acc
                    &&& final(self).queue@ == old(self).queue@ + jobs_of(
                        acc,
                        old(self).batches@.len() as usize,
                    )
                    &&& final(self).batches@ == old(self).batches@.push(
                        Batch { remaining: acc.len() as usize, any_done: false },
                    )
                    &&& if old(self).active_workers < target {
                        &&& final(self).active_workers == target
                        &&& r.spawn == target - old(self).active_workers
                    } else {
                        &&& final(self).active_workers == old(self).active_workers
                        &&& r.spawn == 0
                    }
                }
            }),
    {
        let base = self.next_id;
        let ghost old_items = self.items@;
        let nfiles = files.len();
        let mut ids: Vec<u64> = Vec::new();
        let mut accepted: Vec<u64> = Vec::new();
        let mut i: usize = 0;
        while i < nfiles
            invariant
                nfiles == files@.len(),
                i <= nfiles,
                base == old(self).next_id,
                base + nfiles <= u64::MAX,
                self.next_id == base,
                ids@.len() == i,
                forall|k: int| 0 <= k < i ==> #[trigger] ids@[k] == base + k + 1,
                self.items@.len() == old_items.len() + i,
                old_items == old(self).items@,
                forall|k: int| 0 <= k < old_items.len() ==> #[trigger] self.items@[k] == old_items[k],
                forall|k: int|
                    0 <= k < i ==> row_for(
                        #[trigger] self.items@[old_items.len() + k],
                        files@[k],
                        (base + k + 1) as u64,
                    ),
                ids_increasing(self.items@, (base + i) as u64),
                accepted@ == accepted_ids(files@.subrange(0, i as int), base),
                self.handles == old(self).handles,
                self.queue == old(self).queue,
                self.in_flight == old(self).in_flight,
                self.batches == old(self).batches,
                self.active_workers == old(self).active_workers,
            decreases nfiles - i,
        {
            let id = base + i as u64 + 1;
            let f = &files[i];
            let verdict = validate_file(f.mime.as_str(), f.size);
            let accepted_now = verdict.is_ok();
            let status = match verdict {
                Ok(()) => UploadStatus::Queued,
                Err(m) => UploadStatus::Failed(m),
            };
            if accepted_now {
                accepted.push(id);
            }
            self.items.push(
                UploadItem {
                    id,
                    name: f.name.clone(),
                    size: f.size_label.clone(),
                    status,
                    removing: false,
                },
            );
            ids.push(id);
            proof {
                let pre = files@.subrange(0, i as int);
                let nxt = files@.subrange(0, i + 1);
                assert(nxt.drop_last() =~= pre);
                assert(nxt.last() == files@[i as int]);
            }
            i = i + 1;
        }
        proof {
            assert(files@.subrange(0, nfiles as int) =~= files@);
        }
        self.next_id = base + nfiles as u64;
        if accepted.len() == 0 {
            return Enqueued { ids, spawn: 0 };
        }
        let batch_index = self.batches.len();
        let ghost items_done = self.items@;
        let ghost old_queue = self.queue@;
        let ghost old_handles = self.handles@;
        let na = accepted.len();
        let mut k: usize = 0;
        while k < na
            invariant
                na == accepted@.len(),
                k <= na,
                batch_index == self.batches@.len(),
                self.batches == old(self).batches,
                self.in_flight == old(self).in_flight,
                self.items@ == items_done,
                self.next_id == old(self).next_id + nfiles,
                self.active_workers == old(self).active_workers,
                old_queue == old(self).queue@,
                self.queue@ == old_queue + jobs_of(accepted@.subrange(0, k as int), batch_index),
                self.handles@ == old_handles + accepted@.subrange(0, k as int),
            decreases na - k,
        {
            let id = accepted[k];
            self.queue.push_back(Job { id, batch: batch_index });
            self.handles.push(id);
            proof {
                assert(accepted@.subrange(0, k + 1) =~= accepted@.subrange(0, k as int).push(id));
                assert(jobs_of(accepted@.subrange(0, k + 1), batch_index) =~= jobs_of(
                    accepted@.subrange(0, k as int),
                    batch_index,
                ).push(Job { id, batch: batch_index }));
            }
            k = k + 1;
        }
        proof {
            assert(accepted@.subrange(0, na as int) =~= accepted@);
        }
        self.batches.push(Batch { remaining: na, any_done: false });
        proof {
            let nj = jobs_of(accepted@, batch_index);
            assert forall|b: int| 0 <= b < self.batches@.len() implies #[trigger] self.batches@[b].remaining
                == count_batch(self.queue@, b) + count_batch(self.in_flight@, b) by {
                lemma_count_concat(old_queue, nj, b);
                if b < batch_index {
                    lemma_count_none(nj, b);
                } else {
                    lemma_count_all(nj, b);
                    assert forall|q: int| 0 <= q < old_queue.len() implies #[trigger] old_queue[q].batch
                        != b by {
                        assert(old(self).queue@[q].batch < old(self).batches@.len());
                    }
                    lemma_count_none(old_queue, b);
                    assert forall|q: int| 0 <= q < self.in_flight@.len() implies #[trigger] self.in_flight@[q].batch
                        != b by {
                        assert(old(self).in_flight@[q].batch < old(self).batches@.len());
                    }
                    lemma_count_none(self.in_flight@, b);
                }
            }
            assert forall|q: int| 0 <= q < self.queue@.len() implies #[trigger] self.queue@[q].batch
                < self.batches@.len() by {
                if q >= old_queue.len() {
                    assert(self.queue@[q] == nj[q - old_queue.len()]);
                }
            }
        }
        let target = worker_target(concurrency);
        let mut spawn: u32 = 0;
        if self.active_workers < target {
            spawn = target - self.active_workers;
            self.active_workers = target;
        }
        Enqueued { ids, spawn }
    }
}


impl UploadBoard {
    /// A worker asks for its next job. An empty queue sends it home (the
    /// pool shrinks by one); otherwise the oldest job moves in flight, and
    /// its row turns "uploading" when its handle is still held, else the
    /// job is to be skipped (the row was dismissed).
    pub fn take_job(&mut self) -> (r: WorkerStep)
        requires
            old(self).wf(),
            old(self).active_workers > 0,
        ensures
            final(self).wf(),
            final(self).next_id == old(self).next_id,
            final(self).handles == old(self).handles,
            final(self).batches == old(self).batches,
            old(self).queue@.len() == 0 ==> {
                &&& r is Exit
                &&& final(self).active_workers == old(self).active_workers - 1
                &&& final(self).items == old(self).items
                &&& final(self).queue == old(self).queue
                &&& final(self).in_flight == old(self).in_flight
            },
            old(self).queue@.len() > 0 ==> {
                let job = old(self).queue@[0];
                &&& final(self).active_workers == old(self).active_workers
                &&& final(self).queue@ == old(self).queue@.drop_first()
                &&& final(self).in_flight@ == old(self).in_flight@.push(job)
                &&& if old(self).handles@.contains(job.id) {
                    &&& r == WorkerStep::Upload(job)
                    &&& final(self).items@ == with_status(
                        old(self).items@,
                        job.id,
                        UploadStatus::Uploading,
                    )
                } else {
                    &&& r == WorkerStep::Skip(job)
                    &&& final(self).items == old(self).items
                }
            },
    {
        if self.queue.len() == 0 {
            self.active_workers = self.active_workers - 1;
            return WorkerStep::Exit;
        }
        let ghost q0 = self.queue@;
        let ghost f0 = self.in_flight@;
        let job = match self.queue.pop_front() {
            Some(j) => j,
            None => {
                return WorkerStep::Exit;
            },
        };
        self.in_flight.push(job);
        proof {
            assert(q0.remove(0) =~= q0.drop_first());
            assert(self.queue@ =~= q0.drop_first());
            assert forall|b: int| 0 <= b < self.batches@.len() implies #[trigger] self.batches@[b].remaining
                == count_batch(self.queue@, b) + count_batch(self.in_flight@, b) by {
                lemma_count_remove(q0, 0, b);
                assert(self.in_flight@.drop_last() =~= f0);
            }
            assert forall|k: int| 0 <= k < self.queue@.len() implies #[trigger] self.queue@[k].batch
                < self.batches@.len() by {
                assert(self.queue@[k] == q0[k + 1]);
            }
            assert forall|k: int| 0 <= k < self.in_flight@.len() implies #[trigger] self.in_flight@[k].batch
                < self.batches@.len() by {
                if k < f0.len() {
                    assert(self.in_flight@[k] == f0[k]);
                } else {
                    assert(self.in_flight@[k] == q0[0]);
                }
            }
        }
        if self.has_handle(job.id) {
            self.set_status(job.id, UploadStatus::Uploading);
            WorkerStep::Upload(job)
        } else {
            WorkerStep::Skip(job)
        }
    }

    /// Index of `job` among the jobs in flight.
    fn in_flight_position(&self, job: Job) -> (r: Option<usize>)
        ensures
            match r {
                Some(i) => i < self.in_flight@.len() && self.in_flight@[i as int] == job,
                None => !self.in_flight@.contains(job),
            },
    {
        let n = self.in_flight.len();
        let mut i: usize = 0;
        while i < n
            invariant
                n == self.in_flight@.len(),
                i <= n,
                forall|k: int| 0 <= k < i ==> self.in_flight@[k] != job,
            decreases n - i,
        {
            if self.in_flight[i] == job {
                return Some(i);
            }
            i = i + 1;
        }
        None
    }

    /// A worker reports the end of `job`: `Some(Ok)` uploaded, `Some(Err)`
    /// failed with the server's text, `None` skipped. The row takes the
    /// outcome, the batch counts the job as done, and the caller is asked to
    /// notify exactly when this was the batch's last pending job and one of
    /// its uploads succeeded. A job that is not in flight changes nothing.
    pub fn finish_job(
        &mut self,
        job: Job,
        outcome: Option<Result<(), String>>,
        concurrency: i32,
    ) -> (r: JobDone)
        requires
            old(self).wf(),
        ensures
            final(self).wf(),
            final(self).next_id == old(self).next_id,
            final(self).handles == old(self).handles,
            final(self).queue == old(self).queue,
            final(self).active_workers == old(self).active_workers,
            r.pause_ms == (if old(self).queue@.len() == 0 {
                None
            } else {
                Some((PAUSE_PER_WORKER_MS * clamp_spec(concurrency as int, 1, 32)) as u32)
            }),
            !old(self).in_flight@.contains(job) ==> {
                &&& final(self).items == old(self).items
                &&& final(self).in_flight == old(self).in_flight
                &&& final(self).batches == old(self).batches
                &&& !r.notify
            },
            old(self).in_flight@.contains(job) ==> {
                let b = job.batch as int;
                let before = old(self).batches@[b];
                let done = outcome matches Some(Ok(()));
                &&& final(self).in_flight@.len() == old(self).in_flight@.len() - 1
                &&& final(self).in_flight@.to_multiset() == old(self).in_flight@.to_multiset().remove(job)
                &&& final(self).batches@ == old(self).batches@.update(
                    b,
                    Batch { remaining: (before.remaining - 1) as usize, any_done: before.any_done || done },
                )
                &&& final(self).items@ == match outcome {
                    Some(Ok(())) => with_status(old(self).items@, job.id, UploadStatus::Done),
                    Some(Err(m)) => with_status(old(self).items@, job.id, UploadStatus::Failed(m)),
                    None => old(self).items@,
                }
                &&& r.notify == (final(self).batches@[b].any_done && count_batch(final(self).queue@, b)
                    + count_batch(final(self).in_flight@, b) == 0)
                &&& final(self).batches@[b] == batch_step(before, done).0
                &&& r.notify == batch_step(before, done).1
            },
    {
        let pause_ms = pause_after_upload(self.queue.len() == 0, concurrency);
        let pos = self.in_flight_position(job);
        let p = match pos {
            Some(p) => p,
            None => {
                return JobDone { notify: false, pause_ms };
            },
        };
        let mut done = false;
        match outcome {
            Some(Ok(())) => {
                self.set_status(job.id, UploadStatus::Done);
                done = true;
            },
            Some(Err(m)) => {
                self.set_status(job.id, UploadStatus::Failed(m));
            },
            None => {},
        }
        let ghost f0 = self.in_flight@;
        self.in_flight.remove(p);
        proof {
            f0.to_multiset_ensures();
            self.in_flight@.to_multiset_ensures();
            assert(f0.remove(p as int).to_multiset() =~= f0.to_multiset().remove(job));
        }
        let bi = job.batch;
        let before = self.batches[bi];
        proof {
            lemma_count_remove(f0, p as int, bi as int);
        }
        let after = Batch { remaining: before.remaining - 1, any_done: before.any_done || done };
        self.batches.set(bi, after);
        proof {
            assert forall|b: int| 0 <= b < self.batches@.len() implies #[trigger] self.batches@[b].remaining
                == count_batch(self.queue@, b) + count_batch(self.in_flight@, b) by {
                lemma_count_remove(f0, p as int, b);
            }
            assert forall|k: int| 0 <= k < self.in_flight@.len() implies #[trigger] self.in_flight@[k].batch
                < self.batches@.len() by {
                if k < p {
                    assert(self.in_flight@[k] == f0[k]);
                } else {
                    assert(self.in_flight@[k] == f0[k + 1]);
                }
            }
        }
        JobDone { notify: after.remaining == 0 && after.any_done, pause_ms }
    }
}


impl UploadBoard {
    /// The user dismisses a row: it is marked as leaving (it plays its exit
    /// animation) and its file handle is released at once, so a job still
    /// queued for it is skipped.
    pub fn remove(&mut self, id: u64)
        requires
            old(self).wf(),
        ensures
            final(self).wf(),
            final(self).items@ == with_removing(old(self).items@, id),
            final(self).handles@ == without_id(old(self).handles@, id),
            final(self).queue == old(self).queue,
            final(self).in_flight == old(self).in_flight,
            final(self).batches == old(self).batches,
            final(self).next_id == old(self).next_id,
            final(self).active_workers == old(self).active_workers,
    {
        let ghost before = self.items@;
        match self.position_of(id) {
            Some(i) => {
                let mut it = self.items.remove(i);
                it.removing = true;
                self.items.insert(i, it);
                proof {
                    assert forall|k: int| 0 <= k < before.len() implies #[trigger] self.items@[k]
                        == with_removing(before, id)[k] by {
                        if k > i {
                            assert(before[k].id > before[i as int].id);
                        } else if k < i {
                            assert(before[k].id < before[i as int].id);
                        }
                    }
                    assert(self.items@ =~= with_removing(before, id));
                }
            },
            None => {
                proof {
                    assert(self.items@ =~= with_removing(before, id));
                }
            },
        }
        let n = self.handles.len();
        let mut kept: Vec<u64> = Vec::new();
        let mut k: usize = 0;
        while k < n
            invariant
                n == self.handles@.len(),
                k <= n,
                kept@ == without_id(self.handles@.subrange(0, k as int), id),
            decreases n - k,
        {
            let h = self.handles[k];
            if h != id {
                kept.push(h);
            }
            proof {
                assert(self.handles@.subrange(0, k + 1).drop_last() =~= self.handles@.subrange(
                    0,
                    k as int,
                ));
            }
            k = k + 1;
        }
        proof {
            assert(self.handles@.subrange(0, n as int) =~= self.handles@);
        }
        self.handles = kept;
    }

    /// After the exit animation the dismissed row leaves the list.
    pub fn purge(&mut self, id: u64)
        requires
            old(self).wf(),
        ensures
            final(self).wf(),
            final(self).items@ == without_row(old(self).items@, id),
            final(self).handles == old(self).handles,
            final(self).queue == old(self).queue,
            final(self).in_flight == old(self).in_flight,
            final(self).batches == old(self).batches,
            final(self).next_id == old(self).next_id,
            final(self).active_workers == old(self).active_workers,
    {
        let n = self.items.len();
        let mut kept: Vec<UploadItem> = Vec::new();
        let mut old_items: Vec<UploadItem> = Vec::new();
        std::mem::swap(&mut old_items, &mut self.items);
        let ghost all = old_items@;
        let mut k: usize = 0;
        while k < n
            invariant
                n == all.len(),
                k <= n,
                old_items@ == all.subrange(k as int, n as int),
                kept@ == without_row(all.subrange(0, k as int), id),
            decreases n - k,
        {
            let it = old_items.remove(0);
            proof {
                assert(all.subrange(0, k + 1).drop_last() =~= all.subrange(0, k as int));
                assert(all.subrange(0, k + 1).last() == it);
                assert(old_items@ =~= all.subrange(k + 1, n as int));
            }
            if it.id != id {
                kept.push(it);
            }
            k = k + 1;
        }
        proof {
            assert(all.subrange(0, n as int) =~= all);
            lemma_without_row_increasing(all, id, self.next_id);
        }
        self.items = kept;
    }

    /// The user retries a failed row: possible only while its handle is
    /// held; the row turns "uploading" and the caller uploads the file.
    pub fn begin_retry(&mut self, id: u64) -> (r: bool)
        requires
            old(self).wf(),
        ensures
            final(self).wf(),
            r == old(self).handles@.contains(id),
            r ==> final(self).items@ == with_status(old(self).items@, id, UploadStatus::Uploading),
            !r ==> final(self).items == old(self).items,
            final(self).handles == old(self).handles,
            final(self).queue == old(self).queue,
            final(self).in_flight == old(self).in_flight,
            final(self).batches == old(self).batches,
            final(self).next_id == old(self).next_id,
            final(self).active_workers == old(self).active_workers,
    {
        if self.has_handle(id) {
            self.set_status(id, UploadStatus::Uploading);
            true
        } else {
            false
        }
    }

    /// A retried upload ended: the row takes the outcome, and a success
    /// asks the caller to notify (retries belong to no batch).
    pub fn finish_retry(&mut self, id: u64, outcome: Result<(), String>) -> (notify: bool)
        requires
            old(self).wf(),
        ensures
            final(self).wf(),
            notify == outcome is Ok,
            final(self).items@ == match outcome {
                Ok(()) => with_status(old(self).items@, id, UploadStatus::Done),
                Err(m) => with_status(old(self).items@, id, UploadStatus::Failed(m)),
            },
            final(self).handles == old(self).handles,
            final(self).queue == old(self).queue,
            final(self).in_flight == old(self).in_flight,
            final(self).batches == old(self).batches,
            final(self).next_id == old(self).next_id,
            final(self).active_workers == old(self).active_workers,
    {
        match outcome {
            Ok(()) => {
                self.set_status(id, UploadStatus::Done);
                true
            },
            Err(m) => {
                self.set_status(id, UploadStatus::Failed(m));
                false
            },
        }
    }
}

/// A batch's counter after one of its jobs finished (`done`: the upload
/// succeeded; a skipped or failed job is not), and whether that finish
/// announces the batch.
pub open spec fn batch_step(b: Batch, done: bool) -> (Batch, bool) {
    let after = Batch { remaining: (b.remaining - 1) as usize, any_done: b.any_done || done };
    (after, after.remaining == 0 && after.any_done)
}

/// How many announcements the batch `b` makes while its jobs finish with
/// `outcomes`, in order.
pub open spec fn announcements(b: Batch, outcomes: Seq<bool>) -> nat
    decreases outcomes.len(),
{
    if outcomes.len() == 0 {
        0
    } else {
        let step = batch_step(b, outcomes[0]);
        (if step.1 {
            1nat
        } else {
            0nat
        }) + announcements(step.0, outcomes.drop_first())
    }
}

/// Some outcome is a success.
pub open spec fn any_success(outcomes: Seq<bool>) -> bool {
    exists|i: int| 0 <= i < outcomes.len() && outcomes[i]
}

proof fn lemma_any_success_split(o: Seq<bool>)
    requires
        o.len() > 0,
    ensures
        any_success(o) == (o[0] || any_success(o.drop_first())),
{
    if any_success(o) && !o[0] {
        let i = choose|i: int| 0 <= i < o.len() && o[i];
        assert(o.drop_first()[i - 1]);
    }
    if any_success(o.drop_first()) {
        let i = choose|i: int| 0 <= i < o.drop_first().len() && o.drop_first()[i];
        assert(o[i + 1]);
    }
    if o[0] {
        assert(o[0]);
    }
}

/// A batch with `k` jobs, where `k` is how many jobs are left of it, and
/// those jobs finish with `outcomes`: the batch is announced once if it
/// already had, or gets, a successful upload, and never otherwise; only
/// the finish of its last job can announce it (every earlier step leaves
/// a job pending). From a new batch (`any_done` false) this is the upload
/// dialog's promise: one "uploaded" callback per batch, iff one of its
/// uploads succeeded, after all its jobs were consumed.
pub proof fn lemma_batch_announced_once(b: Batch, outcomes: Seq<bool>)
    requires
        outcomes.len() >= 1,
        b.remaining == outcomes.len(),
    ensures
        announcements(b, outcomes) == (if b.any_done || any_success(outcomes) {
            1nat
        } else {
            0nat
        }),
        outcomes.len() > 1 ==> !batch_step(b, outcomes[0]).1,
    decreases outcomes.len(),
{
    lemma_any_success_split(outcomes);
    let step = batch_step(b, outcomes[0]);
    if outcomes.len() == 1 {
        assert(announcements(step.0, outcomes.drop_first()) == 0);
    } else {
        lemma_batch_announced_once(step.0, outcomes.drop_first());
    }
}

proof fn lemma_count_zero(s: Seq<Job>, b: int)
    requires
        count_batch(s, b) == 0,
    ensures
        forall|k: int| 0 <= k < s.len() ==> #[trigger] s[k].batch != b,
    decreases s.len(),
{
    if s.len() > 0 {
        lemma_count_zero(s.drop_last(), b);
        assert forall|k: int| 0 <= k < s.len() implies #[trigger] s[k].batch != b by {
            if k < s.len() - 1 {
                assert(s[k] == s.drop_last()[k]);
            }
        }
    }
}

/// A batch whose count reached zero has no job queued or in flight, so
/// `finish_job` can never report it again: every batch is announced at
/// most once.
pub proof fn lemma_finished_batch_has_no_jobs(board: UploadBoard, b: int)
    requires
        board.wf(),
        0 <= b < board.batches@.len(),
        board.batches@[b].remaining == 0,
    ensures
        forall|k: int| 0 <= k < board.queue@.len() ==> #[trigger] board.queue@[k].batch != b,
        forall|k: int| 0 <= k < board.in_flight@.len() ==> #[trigger] board.in_flight@[k].batch != b,
{
    assert(board.batches@[b].remaining == count_batch(board.queue@, b) + count_batch(board.in_flight@, b));
    lemma_count_zero(board.queue@, b);
    lemma_count_zero(board.in_flight@, b);
}

} // verus!
