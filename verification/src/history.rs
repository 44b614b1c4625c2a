//! Bounded history store: a fixed-capacity ring of probe results with a
//! stable global addressing scheme that survives eviction, plus the
//! scroll/viewport geometry of a row-major display grid computed from stable
//! indices.

use vstd::prelude::*;
use crate::result::PingResult;
use crate::stats::{record_spec, stats_empty, PingStats};

verus! {

/// Ceiling division for nonnegative `t` and positive `w`.
pub open spec fn ceil_div(t: int, w: int) -> int {
    (t + w - 1) / w
}

/// One recording step of the ring: append `r`, then evict from the front
/// until at most `cap` entries remain, counting evictions into the base.
pub open spec fn store_step(cap: int, entries: Seq<PingResult>, base: int, r: PingResult) -> (
    Seq<PingResult>,
    int,
) {
    let e = entries.push(r);
    if e.len() > cap {
        (e.subrange(e.len() - cap, e.len() as int), base + e.len() - cap)
    } else {
        (e, base)
    }
}

/// The ring and base after recording `rs` in order into an empty store of
/// capacity `cap`.
pub open spec fn store_after(cap: int, rs: Seq<PingResult>) -> (Seq<PingResult>, int)
    decreases rs.len(),
{
    if rs.len() == 0 {
        (Seq::empty(), 0int)
    } else {
        let prev = store_after(cap, rs.drop_last());
        store_step(cap, prev.0, prev.1, rs.last())
    }
}

/// The number of grid rows a display `w` columns wide needs for `total`
/// results (stable indices `0 .. total`), zero for an empty store or a zero
/// width.
pub open spec fn total_rows_spec(total: int, w: int) -> int {
    if w == 0 || total == 0 {
        0
    } else {
        ceil_div(total, w)
    }
}

/// The viewport's bottom row clamped to the rows that exist.
pub open spec fn clamped_end(total: int, w: int, view_end: int) -> int {
    vstd::math::min(view_end, total_rows_spec(total, w))
}

/// The first data row the viewport shows.
pub open spec fn view_start(total: int, w: int, h: int, view_end: int) -> int {
    clamped_end(total, w, view_end) - vstd::math::min(clamped_end(total, w, view_end), h)
}

/// The screen row (counted from the top of an `h`-row viewport, bottom
/// aligned) at which data row `data_row` appears.
pub open spec fn screen_row_of(total: int, w: int, h: int, view_end: int, data_row: int) -> int {
    (h - vstd::math::min(clamped_end(total, w, view_end), h)) + (data_row - view_start(
        total,
        w,
        h,
        view_end,
    ))
}

/// What grid cell `(screen_row, screen_col)` of an `h`-row viewport whose
/// bottom row is `view_end` addresses: the ring position of the stable index
/// shown there, or nothing for an empty cell or an evicted index.
pub open spec fn address_spec(
    len: int,
    base: int,
    w: int,
    h: int,
    view_end: int,
    screen_row: int,
    screen_col: int,
) -> Option<int> {
    if len == 0 || w == 0 || h == 0 {
        None
    } else {
        let total = base + len;
        let actual_end = clamped_end(total, w, view_end);
        let visible = vstd::math::min(actual_end, h);
        let empty_top = h - visible;
        if screen_row < empty_top {
            None
        } else {
            let data_row = (actual_end - visible) + (screen_row - empty_top);
            if data_row >= actual_end {
                None
            } else {
                let idx = data_row * w + screen_col;
                if base <= idx < total {
                    Some(idx - base)
                } else {
                    None
                }
            }
        }
    }
}

/// The engine state a display reads: running statistics and the bounded,
/// stably addressed ring of results, with the viewport row the display is
/// pinned to (absent in live mode) and the pause flag.
pub struct HistoryStore {
    /// Running statistics of the session.
    pub stats: PingStats,
    /// Retained results, oldest first; `results[i]` has stable index
    /// `result_base_seq + i`.
    pub results: Vec<PingResult>,
    /// Capacity: how many results are retained at most.
    pub max_history: usize,
    /// How many results were ever evicted; the stable index of `results[0]`.
    pub result_base_seq: usize,
    /// The data row shown at the bottom of the viewport, absent in live mode.
    pub view_end_row: Option<usize>,
    /// Whether the display has paused recording.
    pub paused: bool,
}

impl HistoryStore {
    /// The count of results ever recorded: evicted plus retained.
    pub open spec fn total(self) -> int {
        self.result_base_seq + self.results@.len()
    }

    /// The grid rows a `w`-column display needs for this store: zero while
    /// the ring is empty, else the ceiling of `total / w`.
    pub open spec fn rows_spec(self, w: int) -> int {
        if self.results@.len() == 0 {
            0
        } else {
            total_rows_spec(self.total(), w)
        }
    }

    /// Invariant: statistics are consistent and the recorded count fits the
    /// machine.
    pub open spec fn wf(self) -> bool {
        &&& self.stats.wf()
        &&& self.total() <= usize::MAX
    }

    /// An empty store of capacity `max_history`.
    pub fn new(max_history: usize) -> (r: Self)
        ensures
            r.stats == stats_empty(),
            r.results@ =~= Seq::<PingResult>::empty(),
            r.max_history == max_history,
            r.result_base_seq == 0,
            r.view_end_row is None,
            !r.paused,
            r.wf(),
    {
        HistoryStore {
            stats: PingStats::new(),
            results: Vec::new(),
            max_history,
            result_base_seq: 0,
            view_end_row: None,
            paused: false,
        }
    }

    /// Record one result: fold it into the statistics, append it to the ring,
    /// and evict from the front (advancing the base) until the capacity holds.
    pub fn record_result(&mut self, result: PingResult)
        requires
            old(self).wf(),
            old(self).total() + 1 <= usize::MAX,
            old(self).stats.total_sent < u64::MAX,
            result.rtt_us matches Some(r) ==> old(self).stats.sum_rtt_us + r <= u64::MAX,
        ensures
            final(self).stats == record_spec(old(self).stats, result.rtt_us),
            final(self).results@ == store_step(
                old(self).max_history as int,
                old(self).results@,
                old(self).result_base_seq as int,
                result,
            ).0,
            final(self).result_base_seq == store_step(
                old(self).max_history as int,
                old(self).results@,
                old(self).result_base_seq as int,
                result,
            ).1,
            final(self).max_history == old(self).max_history,
            final(self).view_end_row == old(self).view_end_row,
            final(self).paused == old(self).paused,
            final(self).results@.len() <= old(self).max_history,
            final(self).wf(),
    {
        self.stats.record(&result);
        self.results.push(result);
        let ghost full = old(self).results@.push(result);
        while self.results.len() > self.max_history
            invariant
                self.stats == record_spec(old(self).stats, result.rtt_us),
                self.max_history == old(self).max_history,
                self.view_end_row == old(self).view_end_row,
                self.paused == old(self).paused,
                old(self).result_base_seq <= self.result_base_seq,
                self.result_base_seq + self.results@.len() == old(self).result_base_seq
                    + full.len(),
                self.results@ =~= full.subrange(
                    self.result_base_seq - old(self).result_base_seq,
                    full.len() as int,
                ),
                self.result_base_seq > old(self).result_base_seq ==> self.results@.len()
                    >= self.max_history,
                self.result_base_seq + self.results@.len() <= usize::MAX,
                self.stats.wf(),
            decreases self.results@.len(),
        {
            self.results.remove(0);
            self.result_base_seq = self.result_base_seq + 1;
            proof {
                assert(self.results@ =~= full.subrange(
                    self.result_base_seq - old(self).result_base_seq,
                    full.len() as int,
                ));
            }
        }
        proof {
            let cap = old(self).max_history as int;
            if full.len() > cap {
                assert(self.results@.len() == cap);
                assert(self.results@ =~= store_step(
                    cap,
                    old(self).results@,
                    old(self).result_base_seq as int,
                    result,
                ).0);
            } else {
                assert(self.results@ =~= full);
            }
        }
    }

    /// Reset everything: statistics, ring, base, viewport.
    pub fn clear_all_data(&mut self)
        ensures
            final(self).stats == stats_empty(),
            final(self).results@ =~= Seq::<PingResult>::empty(),
            final(self).result_base_seq == 0,
            final(self).view_end_row is None,
            final(self).max_history == old(self).max_history,
            final(self).paused == old(self).paused,
            final(self).wf(),
    {
        self.stats = PingStats::new();
        self.results.clear();
        self.result_base_seq = 0;
        self.view_end_row = None;
    }

    /// The number of grid rows a `width`-column display needs to show all
    /// data ever recorded, computed from stable indices so eviction cannot
    /// change it.
    pub fn total_rows(&self, width: usize) -> (r: usize)
        requires
            self.wf(),
        ensures
            r == self.rows_spec(width as int),
    {
        if width == 0 || self.results.len() == 0 {
            return 0;
        }
        let total = self.result_base_seq + self.results.len();
        ceil_div_usize(total, width)
    }

    /// The data row currently at the bottom of the viewport: the pinned row
    /// when scrolled, the last row when live.
    pub fn current_view_end_row(&self, width: usize) -> (r: usize)
        requires
            self.wf(),
        ensures
            r == match self.view_end_row {
                Some(row) => row as int,
                None => self.rows_spec(width as int),
            },
    {
        match self.view_end_row {
            Some(row) => row,
            None => self.total_rows(width),
        }
    }

    /// Whether the viewport follows the newest data.
    pub fn is_live(&self) -> (r: bool)
        ensures
            r == (self.view_end_row is None),
    {
        self.view_end_row.is_none()
    }

    /// The retained result at ring position `idx`, if there is one.
    pub fn get_result(&self, idx: usize) -> (r: Option<&PingResult>)
        ensures
            idx < self.results@.len() ==> r == Some(&self.results@[idx as int]),
            idx >= self.results@.len() ==> r is None,
    {
        if idx < self.results.len() {
            Some(&self.results[idx])
        } else {
            None
        }
    }

    /// Toggle the pause flag; resuming jumps the viewport back to live.
    pub fn toggle_pause(&mut self)
        ensures
            final(self).paused == !old(self).paused,
            final(self).view_end_row == if old(self).paused {
                None::<usize>
            } else {
                old(self).view_end_row
            },
            final(self).stats == old(self).stats,
            final(self).results@ == old(self).results@,
            final(self).result_base_seq == old(self).result_base_seq,
            final(self).max_history == old(self).max_history,
    {
        self.paused = !self.paused;
        if !self.paused {
            self.view_end_row = None;
        }
    }

    /// Scroll the viewport up (toward older rows) by `rows`, never above row
    /// one; a store with no rows ignores the scroll.
    pub fn scroll_up(&mut self, rows: usize, width: usize)
        requires
            old(self).wf(),
        ensures
            final(self).view_end_row == ({
                let total = old(self).rows_spec(width as int);
                let current = match old(self).view_end_row {
                    Some(row) => row as int,
                    None => total,
                };
                if total == 0 {
                    old(self).view_end_row
                } else {
                    Some(vstd::math::max(1, current - rows) as usize)
                }
            }),
            final(self).stats == old(self).stats,
            final(self).results@ == old(self).results@,
            final(self).result_base_seq == old(self).result_base_seq,
            final(self).max_history == old(self).max_history,
            final(self).paused == old(self).paused,
    {
        let total_rows = self.total_rows(width);
        if total_rows == 0 {
            return;
        }
        let current_end = match self.view_end_row {
            Some(row) => row,
            None => total_rows,
        };
        let stepped = if current_end >= rows {
            current_end - rows
        } else {
            0
        };
        let new_end = if stepped >= 1 {
            stepped
        } else {
            1
        };
        self.view_end_row = Some(new_end);
    }

    /// Scroll the viewport down (toward newer rows) by `rows`; reaching or
    /// passing the last row returns to live mode, and live mode stays live.
    pub fn scroll_down(&mut self, rows: usize, width: usize)
        requires
            old(self).wf(),
            old(self).view_end_row matches Some(c) ==> c + rows <= usize::MAX,
        ensures
            final(self).view_end_row == ({
                let total = old(self).rows_spec(width as int);
                match old(self).view_end_row {
                    Some(row) => if row + rows >= total {
                        None::<usize>
                    } else {
                        Some((row + rows) as usize)
                    },
                    None => None::<usize>,
                }
            }),
            final(self).stats == old(self).stats,
            final(self).results@ == old(self).results@,
            final(self).result_base_seq == old(self).result_base_seq,
            final(self).max_history == old(self).max_history,
            final(self).paused == old(self).paused,
    {
        let total_rows = self.total_rows(width);
        match self.view_end_row {
            Some(current_end) => {
                let new_end = current_end + rows;
                if new_end >= total_rows {
                    self.view_end_row = None;
                } else {
                    self.view_end_row = Some(new_end);
                }
            },
            None => {},
        }
    }

    /// Return to live mode and resume recording.
    pub fn jump_to_live(&mut self)
        ensures
            final(self).view_end_row is None,
            !final(self).paused,
            final(self).stats == old(self).stats,
            final(self).results@ == old(self).results@,
            final(self).result_base_seq == old(self).result_base_seq,
            final(self).max_history == old(self).max_history,
    {
        self.view_end_row = None;
        self.paused = false;
    }
}

/// Which ring position a screen cell addresses, bottom-aligned: `None` for
/// an empty cell, an index already evicted, or one not yet produced.
pub fn result_at_position(
    results_len: usize,
    result_base_seq: usize,
    width: usize,
    height: usize,
    view_end_row: usize,
    screen_row: usize,
    screen_col: usize,
) -> (r: Option<usize>)
    requires
        screen_row < height || width == 0 || height == 0 || results_len == 0,
        screen_col < width || width == 0 || height == 0 || results_len == 0,
        result_base_seq + results_len + width <= usize::MAX,
    ensures
        r == match address_spec(
            results_len as int,
            result_base_seq as int,
            width as int,
            height as int,
            view_end_row as int,
            screen_row as int,
            screen_col as int,
        ) {
            Some(i) => Some(i as usize),
            None => None::<usize>,
        },
{
    if results_len == 0 || width == 0 || height == 0 {
        return None;
    }
    let total = result_base_seq + results_len;
    let total_rows = ceil_div_usize(total, width);
    let actual_end = if view_end_row <= total_rows {
        view_end_row
    } else {
        total_rows
    };
    let visible_rows = if actual_end <= height {
        actual_end
    } else {
        height
    };
    let empty_rows_at_top = height - visible_rows;
    if screen_row < empty_rows_at_top {
        return None;
    }
    let view_start_row = actual_end - visible_rows;
    let data_row = view_start_row + (screen_row - empty_rows_at_top);
    if data_row >= actual_end {
        return None;
    }
    proof {
        lemma_row_cell_bound(total as int, width as int, data_row as int, screen_col as int);
    }
    let seq_idx = data_row * width + screen_col;
    if seq_idx >= result_base_seq && seq_idx < total {
        Some(seq_idx - result_base_seq)
    } else {
        None
    }
}

/// Ceiling division on machine integers.
fn ceil_div_usize(t: usize, w: usize) -> (r: usize)
    requires
        1 <= w,
        1 <= t,
    ensures
        r == ceil_div(t as int, w as int),
{
    let q = t / w;
    let rem = t % w;
    proof {
        vstd::arithmetic::div_mod::lemma_fundamental_div_mod(t as int, w as int);
        lemma_ceil_div_parts(t as int, w as int);
        if rem != 0 {
            assert(q + 1 <= t) by (nonlinear_arith)
                requires
                    t as int == w as int * (q as int) + rem as int,
                    1 <= rem,
                    1 <= w,
                    0 <= q,
            ;
        }
    }
    if rem != 0 {
        q + 1
    } else {
        q
    }
}

/// Ceiling division agrees with quotient-plus-remainder-indicator.
proof fn lemma_ceil_div_parts(t: int, w: int)
    requires
        0 <= t,
        0 < w,
    ensures
        ceil_div(t, w) == t / w + if t % w != 0 {
            1int
        } else {
            0int
        },
{
    vstd::arithmetic::div_mod::lemma_fundamental_div_mod(t, w);
    vstd::arithmetic::div_mod::lemma_fundamental_div_mod(t + w - 1, w);
    assert(ceil_div(t, w) == t / w + if t % w != 0 {
        1int
    } else {
        0int
    }) by (nonlinear_arith)
        requires
            0 <= t,
            0 < w,
            t == w * (t / w) + t % w,
            t + w - 1 == w * ((t + w - 1) / w) + (t + w - 1) % w,
            0 <= t % w < w,
            0 <= (t + w - 1) % w < w,
    ;
}

/// A cell of a data row below the last needed row stays within `total + w`.
proof fn lemma_row_cell_bound(total: int, w: int, data_row: int, col: int)
    requires
        0 < w,
        0 < total,
        0 <= col < w,
        0 <= data_row < ceil_div(total, w),
    ensures
        0 <= data_row * w,
        data_row * w + col < total + w,
        data_row * w <= total,
{
    vstd::arithmetic::div_mod::lemma_fundamental_div_mod(total + w - 1, w);
    assert(data_row * w >= 0 && data_row * w + col < total + w && data_row * w <= total)
        by (nonlinear_arith)
        requires
            0 < w,
            0 < total,
            0 <= col < w,
            0 <= data_row < ceil_div(total, w),
            total + w - 1 == w * ((total + w - 1) / w) + (total + w - 1) % w,
            0 <= (total + w - 1) % w < w,
    ;
}

/// Law (history eviction): recording `rs` into an empty store of capacity
/// `cap` retains exactly the most recent `min(cap, rs.len())` results, in
/// order, and counts the rest as evicted; in particular, after `cap + j`
/// results (`j > 0`) exactly `cap` remain and the base is `j`.
pub proof fn lemma_history_eviction(cap: int, rs: Seq<PingResult>)
    requires
        0 <= cap,
    ensures
        store_after(cap, rs).0 =~= rs.subrange(
            rs.len() - vstd::math::min(rs.len() as int, cap),
            rs.len() as int,
        ),
        store_after(cap, rs).1 == rs.len() - vstd::math::min(rs.len() as int, cap),
    decreases rs.len(),
{
    if rs.len() > 0 {
        lemma_history_eviction(cap, rs.drop_last());
        let prev = store_after(cap, rs.drop_last());
        assert(prev.0.push(rs.last()) =~= rs.subrange(
            rs.len() - 1 - vstd::math::min(rs.len() - 1, cap),
            rs.len() as int,
        ));
    }
}

/// Law (addressing stability): a retained stable index `s` is addressed by
/// the cell at row `s / w`, column `s % w` whenever the viewport shows that
/// row, and the cell maps to ring position `s - base` — however far the base
/// has advanced, as long as `s >= base`.
pub proof fn lemma_addressing_stable(
    len: int,
    base: int,
    w: int,
    h: int,
    view_end: int,
    s: int,
)
    requires
        0 < w,
        0 < h,
        0 < len,
        0 <= base <= s < base + len,
        view_start(base + len, w, h, view_end) <= s / w < clamped_end(base + len, w, view_end),
    ensures
        address_spec(
            len,
            base,
            w,
            h,
            view_end,
            screen_row_of(base + len, w, h, view_end, s / w),
            s % w,
        ) == Some(s - base),
{
    let total = base + len;
    vstd::arithmetic::div_mod::lemma_fundamental_div_mod(s, w);
    vstd::arithmetic::div_mod::lemma_mod_bound(s, w);
    assert(s / w * w + s % w == s) by (nonlinear_arith)
        requires
            0 < w,
            s == w * (s / w) + s % w,
    ;
}

} // verus!
