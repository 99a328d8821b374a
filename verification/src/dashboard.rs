//! The dashboard: three independent loads (post statistics, recent posts,
//! pending comments), each shown as data, as a failure with a retry, or as
//! a skeleton; the trend badge, the pending card's emphasis, the count-up
//! animation's integer steps, and the sparkline's scale.

use vstd::prelude::*;

use crate::text::{push_zeros, spec_decimal, u64_text, zero_padded};

verus! {

/// What a dashboard panel shows.
#[derive(Clone, Copy, Debug, PartialEq, Eq, Structural)]
pub enum Panel {
    /// The data (it stays shown even if a later retry failed).
    Ready,
    /// "加载失败" with a retry button; a failure is never shown as zero.
    Failed,
    /// The skeleton.
    Loading,
}

/// A panel from whether its data arrived and whether its load failed.
pub fn panel(has_data: bool, failed: bool) -> (r: Panel)
    ensures
        has_data ==> r == Panel::Ready,
        !has_data && failed ==> r == Panel::Failed,
        !has_data && !failed ==> r == Panel::Loading,
{
    if has_data {
        Panel::Ready
    } else if failed {
        Panel::Failed
    } else {
        Panel::Loading
    }
}

/// The post statistics the cards show.
#[derive(Clone, Copy, Debug, PartialEq, Eq, Structural)]
pub struct PostStats {
    pub total: i64,
    pub published: i64,
    pub drafts: i64,
    pub recent_30d: i64,
}

/// The dashboard's loads. `loaded` marks that the loads were issued.
pub struct Dashboard {
    pub stats: Option<PostStats>,
    pub stats_failed: bool,
    /// How many recent posts arrived (the list itself is the page's).
    pub recent_count: Option<usize>,
    pub posts_failed: bool,
    pub pending: Option<i64>,
    pub pending_failed: bool,
    pub loaded: bool,
}

impl Dashboard {
    /// Nothing loaded or issued.
    pub fn new() -> (r: Dashboard)
        ensures
            r.stats is None && r.recent_count is None && r.pending is None,
            !r.stats_failed && !r.posts_failed && !r.pending_failed,
            !r.loaded,
    {
        Dashboard {
            stats: None,
            stats_failed: false,
            recent_count: None,
            posts_failed: false,
            pending: None,
            pending_failed: false,
            loaded: false,
        }
    }

    /// The load effect: issues the three loads once (again after a retry).
    /// Returns whether they are to be issued now.
    pub fn begin(&mut self) -> (issue: bool)
        ensures
            issue == !old(self).loaded,
            final(self).loaded,
            final(self).stats == old(self).stats,
            final(self).recent_count == old(self).recent_count,
            final(self).pending == old(self).pending,
            final(self).stats_failed == old(self).stats_failed,
            final(self).posts_failed == old(self).posts_failed,
            final(self).pending_failed == old(self).pending_failed,
    {
        if self.loaded {
            false
        } else {
            self.loaded = true;
            true
        }
    }

    /// The statistics answered.
    pub fn stats_answered(&mut self, answer: Option<PostStats>)
        ensures
            answer is Some ==> final(self).stats == answer && final(self).stats_failed
                == old(self).stats_failed,
            answer is None ==> final(self).stats == old(self).stats && final(self).stats_failed,
            final(self).recent_count == old(self).recent_count,
            final(self).pending == old(self).pending,
            final(self).posts_failed == old(self).posts_failed,
            final(self).pending_failed == old(self).pending_failed,
            final(self).loaded == old(self).loaded,
    {
        match answer {
            Some(s) => {
                self.stats = Some(s);
            },
            None => {
                self.stats_failed = true;
            },
        }
    }

    /// The recent posts answered (their number, or a failure).
    pub fn posts_answered(&mut self, answer: Option<usize>)
        ensures
            answer is Some ==> final(self).recent_count == answer && final(self).posts_failed
                == old(self).posts_failed,
            answer is None ==> final(self).recent_count == old(self).recent_count
                && final(self).posts_failed,
            final(self).stats == old(self).stats,
            final(self).pending == old(self).pending,
            final(self).stats_failed == old(self).stats_failed,
            final(self).pending_failed == old(self).pending_failed,
            final(self).loaded == old(self).loaded,
    {
        match answer {
            Some(n) => {
                self.recent_count = Some(n);
            },
            None => {
                self.posts_failed = true;
            },
        }
    }

    /// The pending-comment count answered.
    pub fn pending_answered(&mut self, answer: Option<i64>)
        ensures
            answer is Some ==> final(self).pending == answer && final(self).pending_failed
                == old(self).pending_failed,
            answer is None ==> final(self).pending == old(self).pending && final(self).pending_failed,
            final(self).stats == old(self).stats,
            final(self).recent_count == old(self).recent_count,
            final(self).stats_failed == old(self).stats_failed,
            final(self).posts_failed == old(self).posts_failed,
            final(self).loaded == old(self).loaded,
    {
        match answer {
            Some(n) => {
                self.pending = Some(n);
            },
            None => {
                self.pending_failed = true;
            },
        }
    }

    /// "Retry": clears every failure and re-arms the loads. Data already
    /// shown stays.
    pub fn retry(&mut self)
        ensures
            !final(self).stats_failed && !final(self).posts_failed && !final(self).pending_failed,
            !final(self).loaded,
            final(self).stats == old(self).stats,
            final(self).recent_count == old(self).recent_count,
            final(self).pending == old(self).pending,
    {
        self.stats_failed = false;
        self.posts_failed = false;
        self.pending_failed = false;
        self.loaded = false;
    }

    /// The statistics cards.
    pub fn stats_panel(&self) -> (r: Panel)
        ensures
            r == (if self.stats is Some {
                Panel::Ready
            } else if self.stats_failed {
                Panel::Failed
            } else {
                Panel::Loading
            }),
    {
        panel(self.stats.is_some(), self.stats_failed)
    }

    /// The pending-comments card.
    pub fn pending_panel(&self) -> (r: Panel)
        ensures
            r == (if self.pending is Some {
                Panel::Ready
            } else if self.pending_failed {
                Panel::Failed
            } else {
                Panel::Loading
            }),
    {
        panel(self.pending.is_some(), self.pending_failed)
    }

    /// The recent-posts list.
    pub fn posts_panel(&self) -> (r: Panel)
        ensures
            r == (if self.recent_count is Some {
                Panel::Ready
            } else if self.posts_failed {
                Panel::Failed
            } else {
                Panel::Loading
            }),
    {
        panel(self.recent_count.is_some(), self.posts_failed)
    }
}

/// The trend text of the total card: an arrow and the count when posts
/// were created in the last 30 days, else a neutral `+0` (also shown for
/// a negative count).
pub open spec fn trend_text_spec(recent: i64) -> Seq<char> {
    if recent > 0 {
        "↑ 近30天 +"@ + spec_decimal(recent as nat)
    } else {
        "近30天 +0"@
    }
}

/// The trend badge: its text and whether it is the positive (green) one.
pub fn trend_badge(recent: i64) -> (r: (String, bool))
    ensures
        r.0@ == trend_text_spec(recent),
        r.1 == (recent > 0),
{
    if recent > 0 {
        let mut t = String::from_str("↑ 近30天 +");
        let n = u64_text(recent as u64);
        t.append(n.as_str());
        (t, true)
    } else {
        (String::from_str("近30天 +0"), false)
    }
}

/// The pending card is highlighted (amber) when comments wait.
pub fn pending_highlighted(count: i64) -> (r: bool)
    ensures
        r == (count > 0),
{
    count > 0
}

/// The entry delay of the `i`-th recent post (at most five are listed).
pub fn recent_row_delay(i: usize) -> (r: i32)
    requires
        i < 5,
    ensures
        r == i * 80,
{
    (i as i32) * 80
}

/// The recent posts listed: the first five.
pub fn recent_shown(n: usize) -> (r: usize)
    ensures
        r == (if n < 5 {
            n
        } else {
            5
        }),
{
    if n < 5 {
        n
    } else {
        5
    }
}

/// The post number label, `#` and the id zero-padded to four characters
/// (a sign counts toward the width), as `{:04}` renders it.
pub open spec fn id_label_spec(id: i64) -> Seq<char> {
    if id >= 0 {
        "#"@ + zero_padded(spec_decimal(id as nat), 4)
    } else {
        "#-"@ + zero_padded(spec_decimal((-id) as nat), 3)
    }
}

/// The post number label of a recent post.
pub fn id_label(id: i64) -> (r: String)
    ensures
        r@ == id_label_spec(id),
{
    let (mut out, mag, width): (String, u64, usize) = if id >= 0 {
        (String::from_str("#"), id as u64, 4)
    } else {
        let m: u64 = if id == i64::MIN {
            9223372036854775808u64
        } else {
            (0 - id) as u64
        };
        (String::from_str("#-"), m, 3)
    };
    let digits = u64_text(mag);
    let len = digits.unicode_len();
    let ghost head = out@;
    if len < width {
        push_zeros(&mut out, width - len);
    }
    out.append(digits.as_str());
    proof {
        if len >= width {
            assert(out@ =~= head + digits@);
        } else {
            assert(out@ =~= head + (Seq::new((width - len) as nat, |i: int| '0') + digits@));
        }
    }
    out
}

/// The sparkline is drawn from two points on.
pub fn sparkline_shown(points: usize) -> (r: bool)
    ensures
        r == (points >= 2),
{
    points >= 2
}

/// The largest value of a series (0 for an empty one).
pub open spec fn series_max(s: Seq<i64>) -> int
    decreases s.len(),
{
    if s.len() == 0 {
        0
    } else {
        let m = series_max(s.drop_last());
        if s.len() == 1 || s.last() > m {
            s.last() as int
        } else {
            m
        }
    }
}

/// The sparkline's vertical scale: the series' maximum, at least 1 (an
/// all-zero series is a flat line on the baseline, not a division by
/// zero).
pub fn sparkline_scale(data: &Vec<i64>) -> (r: i64)
    ensures
        r == (if data@.len() == 0 || series_max(data@) < 1 {
            1
        } else {
            series_max(data@)
        }),
{
    if data.len() == 0 {
        return 1;
    }
    let mut m: i64 = data[0];
    let mut i: usize = 1;
    proof {
        assert(data@.subrange(0, 1).drop_last() =~= Seq::<i64>::empty());
    }
    while i < data.len()
        invariant
            1 <= i <= data@.len(),
            m == series_max(data@.subrange(0, i as int)),
        decreases data.len() - i,
    {
        proof {
            assert(data@.subrange(0, i + 1).drop_last() =~= data@.subrange(0, i as int));
        }
        if data[i] > m {
            m = data[i];
        }
        i = i + 1;
    }
    proof {
        assert(data@.subrange(0, data@.len() as int) =~= data@);
    }
    if m < 1 {
        1
    } else {
        m
    }
}

/// One tick of the count-up animation.
#[derive(Clone, Copy, Debug, PartialEq, Eq, Structural)]
pub enum CountUpStep {
    /// Show the target and stop.
    Final,
    /// Show the eased value for the elapsed time and go on.
    Ease,
}

/// The count-up's duration, ms.
pub const COUNT_UP_MS: i64 = 450;

/// The count-up shows the target at once under reduced motion or for a
/// target of at most zero; otherwise it eases until 450 ms have passed.
pub fn count_up_step(target: i64, reduced_motion: bool, elapsed_ms: i64) -> (r: CountUpStep)
    ensures
        r == (if reduced_motion || target <= 0 || elapsed_ms >= COUNT_UP_MS {
            CountUpStep::Final
        } else {
            CountUpStep::Ease
        }),
{
    if reduced_motion || target <= 0 || elapsed_ms >= COUNT_UP_MS {
        CountUpStep::Final
    } else {
        CountUpStep::Ease
    }
}

} // verus!
