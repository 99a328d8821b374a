//! The runtime log viewer: the level filter chips, the filter signature
//! that remounts the stream pane, the stream URL, the row buffer fed by
//! history pages and the live stream, the "gap" notices, scroll following,
//! the cleanup-policy form and the export file name.

use vstd::prelude::*;

use vstd::string::StringSliceAdditionalSpecFns;

use crate::text::{
    i64_text, padded_text, parse_i32, parse_u64, second_word, spec_decimal, spec_int_text, spec_parse_i32,
    spec_parse_u64, str_eq, trim, trim_seq, u64_text, words, zero_padded,
};

verus! {

/// Log levels, in the canonical order of the chips and of the server's
/// whitelist.
#[derive(Clone, Copy, Debug, PartialEq, Eq, Structural)]
pub enum LogLevel {
    Error,
    Warn,
    Info,
    Debug,
    Trace,
}

/// `[l]` when `on`, else nothing.
pub open spec fn opt_level(on: bool, l: LogLevel) -> Seq<LogLevel> {
    if on {
        seq![l]
    } else {
        Seq::empty()
    }
}

/// All levels in canonical order.
pub open spec fn all_levels() -> Seq<LogLevel> {
    seq![LogLevel::Error, LogLevel::Warn, LogLevel::Info, LogLevel::Debug, LogLevel::Trace]
}

/// The wire name of a level.
pub open spec fn level_name(l: LogLevel) -> Seq<char> {
    match l {
        LogLevel::Error => "ERROR"@,
        LogLevel::Warn => "WARN"@,
        LogLevel::Info => "INFO"@,
        LogLevel::Debug => "DEBUG"@,
        LogLevel::Trace => "TRACE"@,
    }
}

impl LogLevel {
    /// The wire name (`ERROR`, `WARN`, `INFO`, `DEBUG`, `TRACE`).
    pub fn name(&self) -> (r: &'static str)
        ensures
            r@ == level_name(*self),
    {
        match self {
            LogLevel::Error => "ERROR",
            LogLevel::Warn => "WARN",
            LogLevel::Info => "INFO",
            LogLevel::Debug => "DEBUG",
            LogLevel::Trace => "TRACE",
        }
    }
}

/// The selected levels of the filter bar. Selection is kept in canonical
/// order, so the set itself is the state.
#[derive(Clone, Copy, Debug, PartialEq, Eq, Structural)]
pub struct LevelSet {
    pub error: bool,
    pub warn: bool,
    pub info: bool,
    pub debug: bool,
    pub trace: bool,
}

impl LevelSet {
    /// Whether `l` is selected.
    pub open spec fn has(self, l: LogLevel) -> bool {
        match l {
            LogLevel::Error => self.error,
            LogLevel::Warn => self.warn,
            LogLevel::Info => self.info,
            LogLevel::Debug => self.debug,
            LogLevel::Trace => self.trace,
        }
    }

    /// The selected levels in canonical order.
    pub open spec fn selected(self) -> Seq<LogLevel> {
        opt_level(self.error, LogLevel::Error) + opt_level(self.warn, LogLevel::Warn) + opt_level(
            self.info,
            LogLevel::Info,
        ) + opt_level(self.debug, LogLevel::Debug) + opt_level(self.trace, LogLevel::Trace)
    }

    /// The page's initial selection: ERROR, WARN and INFO.
    pub fn initial() -> (r: LevelSet)
        ensures
            r.has(LogLevel::Error) && r.has(LogLevel::Warn) && r.has(LogLevel::Info),
            !r.has(LogLevel::Debug) && !r.has(LogLevel::Trace),
    {
        LevelSet { error: true, warn: true, info: true, debug: false, trace: false }
    }

    /// Whether `l` is selected.
    pub fn contains(&self, l: LogLevel) -> (r: bool)
        ensures
            r == self.has(l),
    {
        match l {
            LogLevel::Error => self.error,
            LogLevel::Warn => self.warn,
            LogLevel::Info => self.info,
            LogLevel::Debug => self.debug,
            LogLevel::Trace => self.trace,
        }
    }

    /// The selection with `l` flipped.
    pub open spec fn toggled(self, l: LogLevel) -> LevelSet {
        match l {
            LogLevel::Error => LevelSet { error: !self.error, ..self },
            LogLevel::Warn => LevelSet { warn: !self.warn, ..self },
            LogLevel::Info => LevelSet { info: !self.info, ..self },
            LogLevel::Debug => LevelSet { debug: !self.debug, ..self },
            LogLevel::Trace => LevelSet { trace: !self.trace, ..self },
        }
    }

    /// A click on a chip: a selected level is deselected, another one is
    /// selected (and lands in its canonical place).
    pub fn toggle(&self, l: LogLevel) -> (r: LevelSet)
        ensures
            r == self.toggled(l),
            r.has(l) == !self.has(l),
            forall|m: LogLevel| m != l ==> r.has(m) == self.has(m),
    {
        let mut r = *self;
        match l {
            LogLevel::Error => r.error = !r.error,
            LogLevel::Warn => r.warn = !r.warn,
            LogLevel::Info => r.info = !r.info,
            LogLevel::Debug => r.debug = !r.debug,
            LogLevel::Trace => r.trace = !r.trace,
        }
        r
    }

    /// No level selected (the server then shows every level).
    pub fn is_empty(&self) -> (r: bool)
        ensures
            r == (forall|m: LogLevel| !self.has(m)),
    {
        let r = !(self.error || self.warn || self.info || self.debug || self.trace);
        proof {
            if !r {
                if self.error {
                    assert(self.has(LogLevel::Error));
                } else if self.warn {
                    assert(self.has(LogLevel::Warn));
                } else if self.info {
                    assert(self.has(LogLevel::Info));
                } else if self.debug {
                    assert(self.has(LogLevel::Debug));
                } else {
                    assert(self.has(LogLevel::Trace));
                }
            }
        }
        r
    }
}

/// Names joined by a comma.
pub open spec fn join_comma(names: Seq<Seq<char>>) -> Seq<char>
    decreases names.len(),
{
    if names.len() == 0 {
        Seq::empty()
    } else if names.len() == 1 {
        names[0]
    } else {
        join_comma(names.drop_last()) + ","@ + names.last()
    }
}

/// The comma-separated wire names of the selected levels, canonical order.
pub open spec fn levels_csv_spec(s: LevelSet) -> Seq<char> {
    join_comma(s.selected().map_values(|l: LogLevel| level_name(l)))
}


/// Appends one more name to a comma-joined list.
fn push_joined(out: &mut String, count: usize, name: &str, names: Ghost<Seq<Seq<char>>>)
    requires
        old(out)@ == join_comma(names@),
        count == names@.len(),
    ensures
        final(out)@ == join_comma(names@.push(name@)),
{
    proof {
        assert(names@.push(name@).drop_last() =~= names@);
    }
    if count > 0 {
        out.append(",");
    } else {
        proof {
            assert(old(out)@ =~= Seq::<char>::empty());
        }
    }
    out.append(name);
    proof {
        if count == 0 {
            assert(final(out)@ =~= name@);
        }
    }
}

impl LevelSet {
    /// The selected levels' wire names joined by commas, canonical order
    /// (the `levels` query value and the first part of the filter key).
    pub fn levels_csv(&self) -> (r: String)
        ensures
            r@ == levels_csv_spec(*self),
    {
        let ghost mut names: Seq<Seq<char>> = Seq::empty();
        let mut out = String::new();
        let mut count: usize = 0;
        let order = [LogLevel::Error, LogLevel::Warn, LogLevel::Info, LogLevel::Debug, LogLevel::Trace];
        let mut i: usize = 0;
        while i < 5
            invariant
                i <= 5,
                order@ == all_levels(),
                count == names.len(),
                count <= i,
                out@ == join_comma(names),
                names == self.selected_prefix(i as int).map_values(|l: LogLevel| level_name(l)),
            decreases 5 - i,
        {
            let l = order[i];
            proof {
                assert(l == all_levels()[i as int]);
            }
            if self.contains(l) {
                push_joined(&mut out, count, l.name(), Ghost(names));
                proof {
                    names = names.push(level_name(l));
                }
                count = count + 1;
            }
            proof {
                let a = self.selected_prefix(i as int);
                let b = self.selected_prefix(i + 1);
                if self.has(l) {
                    assert(b =~= a.push(l));
                    assert(b.map_values(|l: LogLevel| level_name(l)) =~= a.map_values(
                        |l: LogLevel| level_name(l),
                    ).push(level_name(l)));
                } else {
                    assert(b =~= a);
                }
            }
            i = i + 1;
        }
        proof {
            reveal_with_fuel(LevelSet::selected_prefix, 6);
            assert(self.selected_prefix(5) =~= self.selected());
        }
        out
    }

    /// The selected levels among the first `k` of the canonical order.
    pub open spec fn selected_prefix(self, k: int) -> Seq<LogLevel>
        decreases k,
    {
        if k <= 0 {
            Seq::empty()
        } else {
            let p = self.selected_prefix(k - 1);
            let l = all_levels()[k - 1];
            if self.has(l) {
                p.push(l)
            } else {
                p
            }
        }
    }
}


/// The filter signature: `levels|target|query`. Any change of it remounts
/// the stream pane (reload of history, reconnect of the live stream).
pub fn filter_key(levels: &LevelSet, target: &Option<String>, query: &str) -> (r: String)
    ensures
        r@ == levels_csv_spec(*levels) + "|"@ + (match target {
            Some(t) => t@,
            None => Seq::empty(),
        }) + "|"@ + query@,
{
    let mut out = levels.levels_csv();
    out.append("|");
    match target {
        Some(t) => out.append(t.as_str()),
        None => {},
    }
    out.append("|");
    out.append(query);
    proof {
        if target is None {
            assert(levels_csv_spec(*levels) + "|"@ =~= levels_csv_spec(*levels) + "|"@ + Seq::<
                char,
            >::empty());
        }
    }
    out
}

/// The live stream's URL. `target_enc` and `query_enc` are the target and
/// query after URI-component encoding (empty when absent); each is only
/// added when not empty.
pub fn stream_url(levels: &LevelSet, target_enc: &str, query_enc: &str) -> (r: String)
    ensures
        r@ == "/api/logs/stream?levels="@ + levels_csv_spec(*levels) + (if target_enc@.len() == 0 {
            Seq::empty()
        } else {
            "&target="@ + target_enc@
        }) + (if query_enc@.len() == 0 {
            Seq::empty()
        } else {
            "&q="@ + query_enc@
        }),
{
    let mut url = String::from_str("/api/logs/stream?levels=");
    let csv = levels.levels_csv();
    url.append(csv.as_str());
    let ghost base = url@;
    if !target_enc.is_empty() {
        url.append("&target=");
        url.append(target_enc);
    }
    let ghost mid = url@;
    if !query_enc.is_empty() {
        url.append("&q=");
        url.append(query_enc);
    }
    proof {
        if target_enc@.len() == 0 {
            assert(mid =~= base + Seq::<char>::empty());
        } else {
            assert(mid =~= base + ("&target="@ + target_enc@));
        }
        if query_enc@.len() == 0 {
            assert(url@ =~= mid + Seq::<char>::empty());
        } else {
            assert(url@ =~= mid + ("&q="@ + query_enc@));
        }
    }
    url
}

/// Badge colours per level name; anything else (TRACE) is the faintest.
pub open spec fn level_badge_spec(level: Seq<char>) -> Seq<char> {
    if level == "ERROR"@ {
        "bg-red-100 text-red-700 dark:bg-red-900/30 dark:text-red-300"@
    } else if level == "WARN"@ {
        "bg-amber-100 text-amber-700 dark:bg-amber-900/30 dark:text-amber-400"@
    } else if level == "INFO"@ {
        "bg-blue-100 text-blue-700 dark:bg-blue-900/30 dark:text-blue-300"@
    } else if level == "DEBUG"@ {
        "bg-[var(--color-paper-theme)] text-[var(--color-paper-secondary)]"@
    } else {
        "text-[var(--color-paper-tertiary)]"@
    }
}

/// Badge colours of a row's level.
pub fn level_badge_class(level: &str) -> (r: &'static str)
    ensures
        r@ == level_badge_spec(level@),
{
    if str_eq(level, "ERROR") {
        "bg-red-100 text-red-700 dark:bg-red-900/30 dark:text-red-300"
    } else if str_eq(level, "WARN") {
        "bg-amber-100 text-amber-700 dark:bg-amber-900/30 dark:text-amber-400"
    } else if str_eq(level, "INFO") {
        "bg-blue-100 text-blue-700 dark:bg-blue-900/30 dark:text-blue-300"
    } else if str_eq(level, "DEBUG") {
        "bg-[var(--color-paper-theme)] text-[var(--color-paper-secondary)]"
    } else {
        "text-[var(--color-paper-tertiary)]"
    }
}

/// Distance from the bottom under which new rows keep the view pinned (px).
pub const STICK_THRESHOLD_PX: i32 = 48;

/// Whether the scroll container counts as "at the bottom".
pub fn near_bottom(scroll_height: i32, scroll_top: i32, client_height: i32) -> (r: bool)
    ensures
        r == (scroll_height - scroll_top - client_height < STICK_THRESHOLD_PX),
{
    (scroll_height as i64) - (scroll_top as i64) - (client_height as i64) < STICK_THRESHOLD_PX as i64
}

/// The browser-local calendar date `YYYY-MM-DD`, each part zero-padded
/// (the year to four digits, month and day to two), as the export file
/// name is dated.
pub open spec fn local_date_spec(year: u32, month: u32, day: u32) -> Seq<char> {
    zero_padded(spec_decimal(year as nat), 4) + "-"@ + zero_padded(spec_decimal(month as nat), 2)
        + "-"@ + zero_padded(spec_decimal(day as nat), 2)
}

/// The local date text of `year`, `month` (1 to 12) and `day`.
pub fn local_date_text(year: u32, month: u32, day: u32) -> (r: String)
    ensures
        r@ == local_date_spec(year, month, day),
{
    let mut out = padded_text(year as u64, 4);
    out.append("-");
    let m = padded_text(month as u64, 2);
    out.append(m.as_str());
    out.append("-");
    let d = padded_text(day as u64, 2);
    out.append(d.as_str());
    proof {
        reveal_strlit("-");
    }
    out
}

/// The export file name for a browser-local ISO timestamp: its first ten
/// bytes (the date) when they end on a character boundary, else a
/// placeholder.
pub fn log_export_filename(iso: &str) -> (r: String)
    ensures
        r@ == "yggdrasil-logs-"@ + (if 10 <= iso.len() && vstd::utf8::is_char_boundary(
            iso.spec_bytes(),
            10,
        ) {
            date_part(iso)
        } else {
            "unknown-date"@
        }) + ".log"@,
{
    proof {
        vstd::utf8::encode_utf8_valid_utf8(iso@);
    }
    let mut out = String::from_str("yggdrasil-logs-");
    if 10 <= iso.len() && iso.is_char_boundary(10) {
        let (head, _) = iso.split_at(10);
        out.append(head);
        proof {
            date_part_is(iso, head);
        }
    } else {
        out.append("unknown-date");
    }
    out.append(".log");
    out
}

/// The characters of the first ten bytes of `iso`.
pub open spec fn date_part(iso: &str) -> Seq<char> {
    vstd::utf8::decode_utf8(iso.spec_bytes().subrange(0, 10))
}

proof fn date_part_is(iso: &str, head: &str)
    requires
        head.spec_bytes() == iso.spec_bytes().subrange(0, 10),
    ensures
        head@ == date_part(iso),
{
    vstd::utf8::encode_utf8_decode_utf8(head@);
}


/// One structured log record. History records carry their database id;
/// live records arrive with id 0.
pub struct LogEntry {
    pub id: i64,
    /// Unix timestamp (seconds) and sub-second part (nanoseconds).
    pub ts_secs: i64,
    pub ts_nanos: u32,
    pub level: String,
    pub target: String,
    pub message: String,
}

/// The entries of `s` whose id is `k`, in order.
pub open spec fn with_id(s: Seq<LogEntry>, k: i64) -> Seq<LogEntry>
    decreases s.len(),
{
    if s.len() == 0 {
        Seq::empty()
    } else if s.last().id == k {
        with_id(s.drop_last(), k).push(s.last())
    } else {
        with_id(s.drop_last(), k)
    }
}

/// Ids never decrease along `s`.
pub open spec fn sorted_by_id(s: Seq<LogEntry>) -> bool {
    forall|i: int, j: int| 0 <= i < j < s.len() ==> s[i].id <= s[j].id
}

/// `r` is `s` stably sorted by id: sorted, and for every id the entries
/// with that id appear in `r` exactly as in `s`.
pub open spec fn stable_sorted_by_id(s: Seq<LogEntry>, r: Seq<LogEntry>) -> bool {
    &&& sorted_by_id(r)
    &&& forall|k: i64| #[trigger] with_id(r, k) == with_id(s, k)
}

proof fn lemma_with_id_concat(a: Seq<LogEntry>, b: Seq<LogEntry>, k: i64)
    ensures
        with_id(a + b, k) == with_id(a, k) + with_id(b, k),
    decreases b.len(),
{
    if b.len() == 0 {
        assert(a + b =~= a);
        assert(with_id(a, k) + with_id(b, k) =~= with_id(a, k));
    } else {
        assert((a + b).drop_last() =~= a + b.drop_last());
        lemma_with_id_concat(a, b.drop_last(), k);
        if b.last().id == k {
            assert(with_id(a, k) + with_id(b.drop_last(), k).push(b.last()) =~= (with_id(a, k)
                + with_id(b.drop_last(), k)).push(b.last()));
        }
    }
}

proof fn lemma_with_id_none(s: Seq<LogEntry>, k: i64)
    requires
        forall|i: int| 0 <= i < s.len() ==> #[trigger] s[i].id != k,
    ensures
        with_id(s, k) == Seq::<LogEntry>::empty(),
    decreases s.len(),
{
    if s.len() > 0 {
        lemma_with_id_none(s.drop_last(), k);
    }
}

/// Sorts entries by id, keeping the order of equal ids (insertion sort).
pub fn sort_entries_by_id(entries: Vec<LogEntry>) -> (r: Vec<LogEntry>)
    ensures
        stable_sorted_by_id(entries@, r@),
        r@.len() == entries@.len(),
{
    let ghost input = entries@;
    let mut rest = entries;
    let mut out: Vec<LogEntry> = Vec::new();
    let n = rest.len();
    let mut i: usize = 0;
    while i < n
        invariant
            n == input.len(),
            i <= n,
            rest@ == input.subrange(i as int, n as int),
            sorted_by_id(out@),
            out@.len() == i,
            forall|k: i64| #[trigger] with_id(out@, k) == with_id(input.subrange(0, i as int), k),
        decreases n - i,
    {
        let x = rest.remove(0);
        proof {
            assert(x == input[i as int]);
            assert(rest@ =~= input.subrange(i + 1, n as int));
        }
        let m = out.len();
        let mut p: usize = 0;
        while p < m && out[p].id <= x.id
            invariant
                m == out@.len(),
                p <= m,
                forall|q: int| 0 <= q < p ==> out@[q].id <= x.id,
            decreases m - p,
        {
            p = p + 1;
        }
        let ghost before = out@;
        out.insert(p, x);
        proof {
            let pre = before.subrange(0, p as int);
            let post = before.subrange(p as int, m as int);
            assert(before =~= pre + post);
            assert(out@ =~= pre + seq![input[i as int]] + post);
            if p < m {
                assert(before[p as int].id > x.id);
            }
            assert forall|q: int| 0 <= q < post.len() implies #[trigger] post[q].id > x.id by {
                assert(post[q] == before[p + q]);
                if q > 0 {
                    assert(before[p as int].id <= before[p + q].id);
                }
            }
            assert forall|a: int, b: int| 0 <= a < b < out@.len() implies out@[a].id <= out@[b].id by {
                if a < p && b > p {
                    assert(out@[a] == before[a] && out@[b] == before[b - 1]);
                } else if a < p && b == p {
                    assert(out@[a] == before[a]);
                } else if a == p && b > p {
                    assert(out@[b] == before[b - 1]);
                    assert(post[b - 1 - p] == before[b - 1]);
                } else if a > p {
                    assert(out@[a] == before[a - 1] && out@[b] == before[b - 1]);
                } else {
                    assert(out@[a] == before[a] && out@[b] == before[b]);
                }
            }
            let ins = input.subrange(0, i + 1);
            assert(ins.drop_last() =~= input.subrange(0, i as int));
            assert(ins.last() == x);
            let one = seq![x];
            assert forall|k: i64| #[trigger] with_id(out@, k) == with_id(ins, k) by {
                lemma_with_id_concat(pre + one, post, k);
                lemma_with_id_concat(pre, one, k);
                lemma_with_id_concat(pre, post, k);
                assert(one.drop_last() =~= Seq::<LogEntry>::empty());
                assert(one.last() == x);
                assert(with_id(Seq::<LogEntry>::empty(), k) =~= Seq::<LogEntry>::empty());
                assert(with_id(one, k) == (if x.id == k {
                    with_id(one.drop_last(), k).push(x)
                } else {
                    with_id(one.drop_last(), k)
                }));
                if k == x.id {
                    lemma_with_id_none(post, k);
                    assert(with_id(one, k) =~= seq![x]);
                    assert(with_id(pre, k) + seq![x] + Seq::<LogEntry>::empty() =~= with_id(
                        pre,
                        k,
                    ) + Seq::<LogEntry>::empty() + seq![x]);
                } else {
                    assert(with_id(one, k) =~= Seq::<LogEntry>::empty());
                    assert(with_id(pre, k) + Seq::<LogEntry>::empty() =~= with_id(pre, k));
                }
            }
        }
        i = i + 1;
    }
    proof {
        assert(input.subrange(0, n as int) =~= input);
    }
    out
}


/// Rows kept in the buffer at most; beyond it the oldest are dropped.
pub const MAX_BUFFER_ROWS: usize = 2000;
/// Rows dropped at once when the buffer overflows.
pub const BUFFER_TRIM: usize = 500;

/// What a row of the stream pane shows.
pub enum LogRowKind {
    Entry(LogEntry),
    /// The live stream lagged; `Some(n)` when the server said how many
    /// records were skipped.
    Gap(Option<u64>),
}

/// A row with its client-side render key (live records all have id 0,
/// so the id cannot serve as key).
pub struct LogRow {
    pub key: u64,
    pub kind: LogRowKind,
}

/// The rows of the stream pane and the counter that hands out keys.
pub struct LogBuffer {
    pub rows: Vec<LogRow>,
    pub next_key: u64,
}

/// Entry rows for `es`, keyed from `k0` on.
pub open spec fn entry_rows(es: Seq<LogEntry>, k0: u64) -> Seq<LogRow> {
    Seq::new(es.len(), |i: int| LogRow { key: (k0 + i) as u64, kind: LogRowKind::Entry(es[i]) })
}

/// `r` is an entry row with id `id`.
pub open spec fn row_has_id(r: LogRow, id: i64) -> bool {
    match r.kind {
        LogRowKind::Entry(e) => e.id == id,
        LogRowKind::Gap(_) => false,
    }
}

/// Some entry row of `rows` has id `id`.
pub open spec fn has_entry_id(rows: Seq<LogRow>, id: i64) -> bool {
    exists|i: int| 0 <= i < rows.len() && row_has_id(#[trigger] rows[i], id)
}

/// The older entries a history page adds: live-shaped ones (id 0) and
/// those whose id is not shown yet.
pub open spec fn fresh_entries(s: Seq<LogEntry>, rows: Seq<LogRow>) -> Seq<LogEntry>
    decreases s.len(),
{
    if s.len() == 0 {
        s
    } else {
        let p = fresh_entries(s.drop_last(), rows);
        if s.last().id == 0 || !has_entry_id(rows, s.last().id) {
            p.push(s.last())
        } else {
            p
        }
    }
}

/// `rows` with the oldest `BUFFER_TRIM` dropped once they exceed the cap.
pub open spec fn capped(rows: Seq<LogRow>) -> Seq<LogRow> {
    if rows.len() > MAX_BUFFER_ROWS {
        rows.subrange(BUFFER_TRIM as int, rows.len() as int)
    } else {
        rows
    }
}

impl LogBuffer {
    /// Render keys are unique and below the counter.
    pub open spec fn wf(&self) -> bool {
        &&& forall|i: int, j: int|
            0 <= i < j < self.rows@.len() ==> self.rows@[i].key != self.rows@[j].key
        &&& forall|i: int| 0 <= i < self.rows@.len() ==> self.rows@[i].key < self.next_key
    }

    /// An empty pane; keys start at 1.
    pub fn new() -> (r: LogBuffer)
        ensures
            r.wf(),
            r.rows@.len() == 0,
            r.next_key == 1,
    {
        LogBuffer { rows: Vec::new(), next_key: 1 }
    }

    /// Wraps entries into rows with consecutive fresh keys.
    fn wrap(&mut self, es: Vec<LogEntry>) -> (r: Vec<LogRow>)
        requires
            old(self).next_key + es@.len() <= u64::MAX,
        ensures
            r@ == entry_rows(es@, old(self).next_key),
            final(self).next_key == old(self).next_key + es@.len(),
            final(self).rows == old(self).rows,
    {
        let ghost all = es@;
        let mut rest = es;
        let n = rest.len();
        let mut out: Vec<LogRow> = Vec::new();
        let mut i: usize = 0;
        while i < n
            invariant
                n == all.len(),
                i <= n,
                rest@ == all.subrange(i as int, n as int),
                old(self).next_key + n <= u64::MAX,
                self.next_key == old(self).next_key + i,
                self.rows == old(self).rows,
                out@ == entry_rows(all.subrange(0, i as int), old(self).next_key),
            decreases n - i,
        {
            let e = rest.remove(0);
            let key = self.next_key;
            self.next_key = self.next_key + 1;
            out.push(LogRow { key, kind: LogRowKind::Entry(e) });
            proof {
                assert(rest@ =~= all.subrange(i + 1, n as int));
                assert(out@ =~= entry_rows(all.subrange(0, i + 1), old(self).next_key));
            }
            i = i + 1;
        }
        proof {
            assert(all.subrange(0, n as int) =~= all);
        }
        out
    }

    /// The first history page arrived: the pane shows it sorted by id
    /// (stably), each entry with a fresh key.
    pub fn load_history(&mut self, entries: Vec<LogEntry>)
        requires
            old(self).wf(),
            old(self).next_key + entries@.len() <= u64::MAX,
        ensures
            final(self).wf(),
            final(self).next_key == old(self).next_key + entries@.len(),
            exists|sorted: Seq<LogEntry>|
                stable_sorted_by_id(entries@, sorted) && final(self).rows@ == entry_rows(
                    sorted,
                    old(self).next_key,
                ),
    {
        let sorted = sort_entries_by_id(entries);
        let ghost sv = sorted@;
        let rows = self.wrap(sorted);
        self.rows = rows;
        proof {
            assert(stable_sorted_by_id(entries@, sv) && self.rows@ == entry_rows(
                sv,
                old(self).next_key,
            ));
        }
    }

    /// A live record arrived: it is appended; past the cap the oldest
    /// `BUFFER_TRIM` rows are dropped.
    pub fn push_live(&mut self, entry: LogEntry)
        requires
            old(self).wf(),
            old(self).next_key < u64::MAX,
        ensures
            final(self).wf(),
            final(self).next_key == old(self).next_key + 1,
            final(self).rows@ == capped(
                old(self).rows@.push(
                    LogRow { key: old(self).next_key, kind: LogRowKind::Entry(entry) },
                ),
            ),
    {
        let key = self.next_key;
        self.next_key = key + 1;
        self.rows.push(LogRow { key, kind: LogRowKind::Entry(entry) });
        self.trim_overflow();
    }

    /// The live stream reported lost records: a gap row is appended.
    pub fn push_gap(&mut self, missed: Option<u64>)
        requires
            old(self).wf(),
            old(self).next_key < u64::MAX,
        ensures
            final(self).wf(),
            final(self).next_key == old(self).next_key + 1,
            final(self).rows@ == old(self).rows@.push(
                LogRow { key: old(self).next_key, kind: LogRowKind::Gap(missed) },
            ),
    {
        let key = self.next_key;
        self.next_key = key + 1;
        self.rows.push(LogRow { key, kind: LogRowKind::Gap(missed) });
    }

    fn trim_overflow(&mut self)
        requires
            old(self).wf(),
        ensures
            final(self).wf(),
            final(self).next_key == old(self).next_key,
            final(self).rows@ == capped(old(self).rows@),
    {
        if self.rows.len() > MAX_BUFFER_ROWS {
            let kept = self.rows.split_off(BUFFER_TRIM);
            self.rows = kept;
            proof {
                assert forall|i: int, j: int|
                    0 <= i < j < self.rows@.len() implies self.rows@[i].key != self.rows@[j].key by {
                    assert(self.rows@[i] == old(self).rows@[i + 500]);
                    assert(self.rows@[j] == old(self).rows@[j + 500]);
                }
                assert forall|i: int| 0 <= i < self.rows@.len() implies self.rows@[i].key
                    < self.next_key by {
                    assert(self.rows@[i] == old(self).rows@[i + 500]);
                }
            }
        }
    }
}


impl LogBuffer {
    /// Some entry row shows id `id`.
    pub fn shows_id(&self, id: i64) -> (r: bool)
        ensures
            r == has_entry_id(self.rows@, id),
    {
        let n = self.rows.len();
        let mut i: usize = 0;
        while i < n
            invariant
                n == self.rows@.len(),
                i <= n,
                forall|k: int| 0 <= k < i ==> !row_has_id(#[trigger] self.rows@[k], id),
            decreases n - i,
        {
            let hit = match &self.rows[i].kind {
                LogRowKind::Entry(e) => e.id == id,
                LogRowKind::Gap(_) => false,
            };
            if hit {
                proof {
                    assert(row_has_id(self.rows@[i as int], id));
                }
                return true;
            }
            i = i + 1;
        }
        false
    }

    /// An older history page arrived ("load earlier"): sorted by id, the
    /// records already shown are dropped (live ones, id 0, always stay),
    /// and the rest is put before the current rows with fresh keys. Returns
    /// whether anything was added (the caller then keeps the viewport
    /// anchored).
    pub fn prepend_older(&mut self, entries: Vec<LogEntry>) -> (r: bool)
        requires
            old(self).wf(),
            old(self).next_key + entries@.len() <= u64::MAX,
        ensures
            final(self).wf(),
            exists|sorted: Seq<LogEntry>|
                {
                    &&& stable_sorted_by_id(entries@, sorted)
                    &&& {
                        let f = fresh_entries(sorted, old(self).rows@);
                        if f.len() == 0 {
                            &&& !r
                            &&& final(self).rows == old(self).rows
                            &&& final(self).next_key == old(self).next_key
                        } else {
                            &&& r
                            &&& final(self).rows@ == entry_rows(f, old(self).next_key) + old(
                                self,
                            ).rows@
                            &&& final(self).next_key == old(self).next_key + f.len()
                        }
                    }
                },
    {
        let sorted = sort_entries_by_id(entries);
        let ghost sv = sorted@;
        let mut rest = sorted;
        let n = rest.len();
        let mut fresh: Vec<LogEntry> = Vec::new();
        let mut i: usize = 0;
        while i < n
            invariant
                n == sv.len(),
                i <= n,
                rest@ == sv.subrange(i as int, n as int),
                fresh@ == fresh_entries(sv.subrange(0, i as int), self.rows@),
                fresh@.len() <= i,
                self.rows == old(self).rows,
                self.next_key == old(self).next_key,
            decreases n - i,
        {
            let e = rest.remove(0);
            proof {
                assert(rest@ =~= sv.subrange(i + 1, n as int));
                assert(sv.subrange(0, i + 1).drop_last() =~= sv.subrange(0, i as int));
                assert(sv.subrange(0, i + 1).last() == e);
            }
            if e.id == 0 || !self.shows_id(e.id) {
                fresh.push(e);
            }
            i = i + 1;
        }
        proof {
            assert(sv.subrange(0, n as int) =~= sv);
        }
        if fresh.len() == 0 {
            return false;
        }
        let ghost fv = fresh@;
        let mut added = self.wrap(fresh);
        let mut current: Vec<LogRow> = Vec::new();
        std::mem::swap(&mut current, &mut self.rows);
        added.append(&mut current);
        self.rows = added;
        proof {
            let ne = entry_rows(fv, old(self).next_key);
            assert forall|i: int, j: int|
                0 <= i < j < self.rows@.len() implies self.rows@[i].key != self.rows@[j].key by {
                if j >= ne.len() && i < ne.len() {
                    assert(self.rows@[j] == old(self).rows@[j - ne.len()]);
                } else if i >= ne.len() {
                    assert(self.rows@[j] == old(self).rows@[j - ne.len()]);
                    assert(self.rows@[i] == old(self).rows@[i - ne.len()]);
                }
            }
            assert forall|i: int| 0 <= i < self.rows@.len() implies self.rows@[i].key
                < self.next_key by {
                if i >= ne.len() {
                    assert(self.rows@[i] == old(self).rows@[i - ne.len()]);
                }
            }
        }
        true
    }
}


/// The skipped-record count of a gap event whose text is shaped like
/// `missed N log events`: its second word read as a number.
pub open spec fn gap_count_spec(data: Seq<char>) -> Option<u64> {
    if words(data).len() >= 2 {
        spec_parse_u64(words(data)[1])
    } else {
        None
    }
}

/// Reads the skipped-record count of a gap event; `None` when the text
/// does not carry one.
pub fn parse_gap_count(data: &str) -> (r: Option<u64>)
    ensures
        r == gap_count_spec(data@),
{
    match second_word(data) {
        Some(w) => parse_u64(w.as_str()),
        None => None,
    }
}

/// The notice of a gap row.
pub open spec fn gap_text_spec(missed: Option<u64>) -> Seq<char> {
    match missed {
        Some(n) => "…部分日志已跳过（"@ + spec_decimal(n as nat) + " 条）…"@,
        None => "…部分日志已跳过…"@,
    }
}

/// The notice of a gap row.
pub fn gap_text(missed: Option<u64>) -> (r: String)
    ensures
        r@ == gap_text_spec(missed),
{
    match missed {
        Some(n) => {
            let mut out = String::from_str("…部分日志已跳过（");
            let num = u64_text(n);
            out.append(num.as_str());
            out.append(" 条）…");
            out
        },
        None => String::from_str("…部分日志已跳过…"),
    }
}

/// An event of the live log stream, as the page receives it.
pub enum StreamEvent {
    /// The connection opened (again).
    Open,
    /// The connection dropped; the browser reconnects by itself.
    Error,
    /// A `log` event: its record, or `None` when the data is not one.
    Log(Option<LogEntry>),
    /// A `gap` event with its text data, if any ("missed N log events").
    Gap(Option<String>),
}

/// The live pane: its rows and the connection dot.
pub struct LiveStream {
    pub buffer: LogBuffer,
    pub connected: bool,
}

/// The skipped count a gap event's data carries.
pub open spec fn gap_event_count(data: Option<String>) -> Option<u64> {
    match data {
        Some(d) => gap_count_spec(d@),
        None => None,
    }
}

impl LiveStream {
    /// A closed pane with no rows.
    pub fn new() -> (r: LiveStream)
        ensures
            r.buffer.wf(),
            r.buffer.rows@.len() == 0,
            r.buffer.next_key == 1,
            !r.connected,
    {
        LiveStream { buffer: LogBuffer::new(), connected: false }
    }

    /// One stream event. `open` and `error` only move the connection dot
    /// (an error does not close the stream); a record is appended, never
    /// deduplicated, and past 2000 rows the oldest 500 go; a record that
    /// does not parse is dropped; a gap appends a notice row with the
    /// count read from the second word of its text, when there is one.
    pub fn on_event(&mut self, ev: StreamEvent)
        requires
            old(self).buffer.wf(),
            old(self).buffer.next_key < u64::MAX,
        ensures
            final(self).buffer.wf(),
            match ev {
                StreamEvent::Open => final(self).connected && final(self).buffer == old(self).buffer,
                StreamEvent::Error => !final(self).connected && final(self).buffer == old(
                    self,
                ).buffer,
                StreamEvent::Log(None) => *final(self) == *old(self),
                StreamEvent::Log(Some(e)) => {
                    let l = old(self).buffer.rows@.len();
                    &&& final(self).connected == old(self).connected
                    &&& final(self).buffer.next_key == old(self).buffer.next_key + 1
                    &&& final(self).buffer.rows@ == capped(
                        old(self).buffer.rows@.push(
                            LogRow { key: old(self).buffer.next_key, kind: LogRowKind::Entry(e) },
                        ),
                    )
                    &&& final(self).buffer.rows@.len() == (if l + 1 > MAX_BUFFER_ROWS {
                        l + 1 - BUFFER_TRIM
                    } else {
                        l + 1int
                    })
                },
                StreamEvent::Gap(d) => {
                    &&& final(self).connected == old(self).connected
                    &&& final(self).buffer.next_key == old(self).buffer.next_key + 1
                    &&& final(self).buffer.rows@ == old(self).buffer.rows@.push(
                        LogRow {
                            key: old(self).buffer.next_key,
                            kind: LogRowKind::Gap(gap_event_count(d)),
                        },
                    )
                },
            },
    {
        match ev {
            StreamEvent::Open => {
                self.connected = true;
            },
            StreamEvent::Error => {
                self.connected = false;
            },
            StreamEvent::Log(None) => {},
            StreamEvent::Log(Some(e)) => {
                self.buffer.push_live(e);
            },
            StreamEvent::Gap(d) => {
                let missed = match &d {
                    Some(text) => parse_gap_count(text.as_str()),
                    None => None,
                };
                self.buffer.push_gap(missed);
            },
        }
    }
}

/// Number of `'\n'` in `s`.
pub open spec fn newline_count(s: Seq<char>) -> nat
    decreases s.len(),
{
    if s.len() == 0 {
        0
    } else {
        newline_count(s.drop_last()) + if s.last() == '\n' {
            1nat
        } else {
            0nat
        }
    }
}

proof fn lemma_newline_count_le(s: Seq<char>)
    ensures
        newline_count(s) <= s.len(),
    decreases s.len(),
{
    if s.len() > 0 {
        lemma_newline_count_le(s.drop_last());
    }
}

/// Number of lines `str::lines` yields: one per newline, plus an
/// unterminated last line.
pub open spec fn line_count_spec(s: Seq<char>) -> nat {
    newline_count(s) + if s.len() > 0 && s.last() != '\n' {
        1nat
    } else {
        0nat
    }
}

/// `content.lines().count()`.
pub fn line_count(content: &str) -> (r: usize)
    ensures
        r == line_count_spec(content@),
{
    let n = content.unicode_len();
    let mut i: usize = 0;
    let mut nl: usize = 0;
    while i < n
        invariant
            n == content@.len(),
            i <= n,
            nl == newline_count(content@.subrange(0, i as int)),
            nl <= i,
        decreases n - i,
    {
        let c = content.get_char(i);
        proof {
            assert(content@.subrange(0, i + 1).drop_last() =~= content@.subrange(0, i as int));
        }
        if c == '\n' {
            nl = nl + 1;
        }
        i = i + 1;
    }
    proof {
        assert(content@.subrange(0, n as int) =~= content@);
    }
    if n > 0 && content.get_char(n - 1) != '\n' {
        proof {
            lemma_newline_count_le(content@.drop_last());
        }
        nl + 1
    } else {
        nl
    }
}

/// The toast after a successful export.
pub fn export_message(content: &str) -> (r: String)
    ensures
        r@ == "已导出 "@ + spec_decimal(line_count_spec(content@)) + " 条日志"@,
{
    let count = line_count(content);
    let mut out = String::from_str("已导出 ");
    let num = u64_text(count as u64);
    out.append(num.as_str());
    out.append(" 条日志");
    out
}

/// The page subtitle; mentions the records dropped since start when any.
pub fn logs_subtitle(dropped: u64) -> (r: String)
    ensures
        dropped > 0 ==> r@ == "进程内结构化日志 · 历史查询 + 实时流 · 启动以来丢弃 "@ + spec_decimal(
            dropped as nat,
        ) + " 条"@,
        dropped == 0 ==> r@ == "进程内结构化日志 · 历史查询 + 实时流"@,
{
    if dropped > 0 {
        let mut out = String::from_str("进程内结构化日志 · 历史查询 + 实时流 · 启动以来丢弃 ");
        let num = u64_text(dropped);
        out.append(num.as_str());
        out.append(" 条");
        out
    } else {
        String::from_str("进程内结构化日志 · 历史查询 + 实时流")
    }
}

/// A draft number differs from the saved one; text that does not parse
/// counts as a change.
pub open spec fn differs(draft: Seq<char>, saved: i32) -> bool {
    match spec_parse_i32(trim_seq(draft)) {
        Some(d) => d != saved,
        None => true,
    }
}

/// Whether `draft` (trimmed) differs from `saved`.
pub fn draft_differs(draft: &str, saved: i32) -> (r: bool)
    ensures
        r == differs(draft@, saved),
{
    let t = trim(draft);
    match parse_i32(t.as_str()) {
        Some(d) => d != saved,
        None => true,
    }
}

/// The cleanup-policy form has unsaved changes.
pub fn cleanup_dirty(draft_days: &str, draft_rows: &str, saved_days: i32, saved_rows: i32) -> (r:
    bool)
    ensures
        r == (differs(draft_days@, saved_days) || differs(draft_rows@, saved_rows)),
{
    let a = draft_differs(draft_days, saved_days);
    let b = draft_differs(draft_rows, saved_rows);
    a || b
}

/// A draft number read as `FromStr` reads it after trimming, with a
/// fallback, clamped into `lo..=hi`.
pub open spec fn read_clamped(draft: Seq<char>, fallback: i32, lo: i32, hi: i32) -> i32 {
    let v = match spec_parse_i32(trim_seq(draft)) {
        Some(d) => d,
        None => fallback,
    };
    if v < lo {
        lo
    } else if v > hi {
        hi
    } else {
        v
    }
}

/// `draft.trim().parse::<i32>().unwrap_or(fallback).clamp(lo, hi)`.
pub fn parse_clamped(draft: &str, fallback: i32, lo: i32, hi: i32) -> (r: i32)
    requires
        lo <= hi,
    ensures
        r == read_clamped(draft@, fallback, lo, hi),
{
    let t = trim(draft);
    let v = match parse_i32(t.as_str()) {
        Some(d) => d,
        None => fallback,
    };
    if v < lo {
        lo
    } else if v > hi {
        hi
    } else {
        v
    }
}

/// Retention days and row cap to save, as the client pre-clamps them
/// (1–90 days, default 7; 1000–1000000 rows, default 100000).
pub fn cleanup_values(draft_days: &str, draft_rows: &str) -> (r: (i32, i32))
    ensures
        r.0 == read_clamped(draft_days@, 7, 1, 90),
        r.1 == read_clamped(draft_rows@, 100000, 1000, 1000000),
{
    (parse_clamped(draft_days, 7, 1, 90), parse_clamped(draft_rows, 100000, 1000, 1000000))
}

/// The folded card's summary of the saved policy.
pub fn cleanup_summary(days: i32, rows: i32) -> (r: String)
    ensures
        r@ == "保留 "@ + spec_int_text(days as int) + " 天 · 上限 "@ + spec_int_text(rows as int)
            + " 行"@,
{
    let mut out = String::from_str("保留 ");
    let d = i64_text(days as i64);
    out.append(d.as_str());
    out.append(" 天 · 上限 ");
    let r = i64_text(rows as i64);
    out.append(r.as_str());
    out.append(" 行");
    out
}

/// The keys the target dropdown reacts to.
#[derive(Clone, Copy, Debug, PartialEq, Eq, Structural)]
pub enum SelectKey {
    ArrowDown,
    ArrowUp,
    Enter,
    Space,
    Escape,
    Tab,
    Other,
}

/// What a key does to the target dropdown.
#[derive(Clone, Copy, Debug, PartialEq, Eq, Structural)]
pub enum SelectKeyAction {
    /// Open it (the key's default action is prevented).
    Open,
    /// Close it.
    Close,
    /// Nothing.
    Ignore,
}

/// A key on the target dropdown's trigger: closed, the arrows, Enter and
/// Space open it; open, Escape and Tab close it.
pub fn target_select_key(open: bool, key: SelectKey) -> (r: SelectKeyAction)
    ensures
        !open && (key == SelectKey::ArrowDown || key == SelectKey::ArrowUp || key == SelectKey::Enter
            || key == SelectKey::Space) ==> r == SelectKeyAction::Open,
        open && (key == SelectKey::Escape || key == SelectKey::Tab) ==> r == SelectKeyAction::Close,
        !(!open && (key == SelectKey::ArrowDown || key == SelectKey::ArrowUp || key == SelectKey::Enter
            || key == SelectKey::Space)) && !(open && (key == SelectKey::Escape || key == SelectKey::Tab))
            ==> r == SelectKeyAction::Ignore,
{
    if !open {
        match key {
            SelectKey::ArrowDown | SelectKey::ArrowUp | SelectKey::Enter | SelectKey::Space => SelectKeyAction::Open,
            _ => SelectKeyAction::Ignore,
        }
    } else {
        match key {
            SelectKey::Escape | SelectKey::Tab => SelectKeyAction::Close,
            _ => SelectKeyAction::Ignore,
        }
    }
}

/// The dropdown trigger's text: the chosen target, or "全部 target".
pub fn target_label(value: &Option<String>) -> (r: String)
    ensures
        value matches Some(t) ==> r@ == t@,
        value is None ==> r@ == "全部 target"@,
{
    match value {
        Some(t) => t.clone(),
        None => String::from_str("全部 target"),
    }
}

/// Whether an option of the dropdown is the chosen one.
pub fn target_option_selected(value: &Option<String>, option: &str) -> (r: bool)
    ensures
        r == (value matches Some(t) && t@ == option@),
{
    match value {
        Some(t) => str_eq(t.as_str(), option),
        None => false,
    }
}

/// A row's time of day (UTC, `HH:MM:SS`); `None` only for a time chrono
/// cannot represent.
pub fn entry_time(entry: &LogEntry) -> (r: Option<String>)
    ensures
        r matches Some(t) ==> t@ == crate::dates::utc_format(entry.ts_secs as int, "%H:%M:%S"@),
        crate::dates::in_range(entry.ts_secs as int) ==> r is Some,
{
    crate::dates::utc_text(entry.ts_secs, "%H:%M:%S")
}

/// Clicking a level chip twice restores the selection.
pub proof fn lemma_toggle_twice(s: LevelSet, l: LogLevel)
    ensures
        s.toggled(l).toggled(l) == s,
{
}

/// The selection (and so the stream's `levels` parameter) depends only on
/// which chips were clicked, not on the order of the clicks.
pub proof fn lemma_toggle_order_irrelevant(s: LevelSet, a: LogLevel, b: LogLevel)
    ensures
        s.toggled(a).toggled(b) == s.toggled(b).toggled(a),
        levels_csv_spec(s.toggled(a).toggled(b)) == levels_csv_spec(s.toggled(b).toggled(a)),
{
}

/// Live records never grow the pane past the cap: a pane within the cap
/// stays within it after a live record is appended.
pub proof fn lemma_live_push_bounded(rows: Seq<LogRow>, row: LogRow)
    requires
        rows.len() <= MAX_BUFFER_ROWS,
    ensures
        capped(rows.push(row)).len() <= MAX_BUFFER_ROWS,
{
}

} // verus!
