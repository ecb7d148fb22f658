//! Measures the impact of GC pauses on response time: records each runtime
//! suspension and, at detach, how much of each fixed-length time window the
//! runtime spent suspended.

use vstd::prelude::*;
use vstd::seq_lib::to_multiset_insert;

use crate::api::event_mask::COR_PRF_MONITOR_SUSPENDS;
use crate::api::hresult::HRESULT;
use crate::api::traits::CorProfilerInfo;
use crate::profilers::session::{init_session, spec_session, uuid_parse};

verus! {

/// One runtime suspension. Instants are nanoseconds on a monotonic clock,
/// counted from an origin fixed for the whole profiling session.
#[derive(Clone, Copy, Debug, PartialEq, Eq, Structural)]
pub struct GCPause {
    pub start: u64,
    pub end: u64,
}

/// Each pause ends no earlier than it starts, and pauses follow one another
/// without overlapping.
pub open spec fn pauses_ordered(ps: Seq<GCPause>) -> bool {
    &&& forall|j: int| 0 <= j < ps.len() ==> (#[trigger] ps[j]).start <= ps[j].end
    &&& forall|j: int, k: int| 0 <= j < k < ps.len() ==> (#[trigger] ps[j]).end <= (#[trigger] ps[k]).start
}

/// Time that the pause `p` spends inside the window `[lo, hi)`.
pub open spec fn overlap(p: GCPause, lo: int, hi: int) -> int {
    let a = if p.start >= lo { p.start as int } else { lo };
    let b = if p.end <= hi { p.end as int } else { hi };
    if b > a { b - a } else { 0 }
}

/// Time that the pauses `ps` together spend inside the window `[lo, hi)`.
pub open spec fn window_total(ps: Seq<GCPause>, lo: int, hi: int) -> int
    decreases ps.len(),
{
    if ps.len() == 0 {
        0
    } else {
        window_total(ps.drop_last(), lo, hi) + overlap(ps.last(), lo, hi)
    }
}

/// Lower bound of window `k` of length `interval` after `start`. The first
/// window also takes in suspensions that began before profiling started.
pub open spec fn window_lo(start: u64, interval: u64, k: int) -> int {
    if k == 0 { 0 } else { start + k * interval }
}

/// Upper bound of window `k` of length `interval` after `start`.
pub open spec fn window_hi(start: u64, interval: u64, k: int) -> int {
    start + (k + 1) * interval
}

/// The windows stop at window `k`: it would begin at or after the end of
/// profiling, or the last pause ended inside it (such a window is not reported).
pub open spec fn window_stops(ps: Seq<GCPause>, start: u64, end: u64, interval: u64, k: int) -> bool {
    ||| start + k * interval >= end
    ||| ps.last().end < window_hi(start, interval, k)
}

/// Ascending order.
pub open spec fn sorted_u64(s: Seq<u64>) -> bool {
    forall|i: int, j: int| 0 <= i <= j < s.len() ==> s[i] <= s[j]
}

/// Sum of the lengths of the pauses.
pub open spec fn total_length(ps: Seq<GCPause>) -> int
    decreases ps.len(),
{
    if ps.len() == 0 { 0 } else { total_length(ps.drop_last()) + (ps.last().end - ps.last().start) }
}

/// What the GC pause profiler records between attach and detach.
pub struct GCPauseProfiler {
    /// Session the report belongs to (a UUID as a 128-bit value).
    pub session_id: u128,
    /// Completed suspensions, oldest first.
    pub gc_pauses: Vec<GCPause>,
    /// When the latest suspension started.
    pub last_start: u64,
    /// When the profiler finished attaching.
    pub profiling_start: u64,
    /// When the profiler detached.
    pub profiling_end: u64,
}

/// The figures reported when the profiler detaches.
pub struct GCPauseReport {
    /// Time between attach and detach.
    pub total_time: u64,
    /// Time spent in completed suspensions.
    pub total_suspended_time: u64,
    /// Suspended time of each one-second window, ascending.
    pub durations_1000ms: Vec<u64>,
    /// Suspended time of each 400 ms window, ascending.
    pub durations_400ms: Vec<u64>,
    /// Suspended time of each 50 ms window, ascending.
    pub durations_50ms: Vec<u64>,
}

impl GCPauseProfiler {
    /// The recorded pauses are ordered.
    pub open spec fn wf(&self) -> bool {
        pauses_ordered(self.gc_pauses@)
    }

    /// The suspended time of windows `0..count` of length `interval`.
    pub open spec fn spec_window_durations(&self, interval: u64, count: int) -> Seq<u64> {
        Seq::new(count as nat, |k: int| window_total(
            self.gc_pauses@,
            window_lo(self.profiling_start, interval, k),
            window_hi(self.profiling_start, interval, k),
        ) as u64)
    }

    /// `r` lists, in ascending order, the suspended time of each window of
    /// length `interval`: windows are taken from the start of profiling while
    /// they begin before its end, up to the one in which the last pause ends,
    /// which is left out.
    pub open spec fn is_window_report(&self, interval: u64, r: Seq<u64>) -> bool {
        &&& forall|k: int| 0 <= k < r.len() ==> !window_stops(self.gc_pauses@, self.profiling_start, self.profiling_end, interval, k)
        &&& window_stops(self.gc_pauses@, self.profiling_start, self.profiling_end, interval, r.len() as int)
        &&& r.to_multiset() == self.spec_window_durations(interval, r.len() as int).to_multiset()
        &&& sorted_u64(r)
    }

    /// A profiler that has recorded nothing yet; every instant is `now`.
    pub fn new(now: u64) -> (r: Self)
        ensures
            r.wf(),
            r.session_id == 0,
            r.gc_pauses@ == Seq::<GCPause>::empty(),
            r.last_start == now,
            r.profiling_start == now,
            r.profiling_end == now,
    {
        GCPauseProfiler {
            session_id: 0,
            gc_pauses: Vec::new(),
            last_start: now,
            profiling_start: now,
            profiling_end: now,
        }
    }

    /// The runtime starts suspending at `now`, which is no earlier than any
    /// instant recorded so far.
    pub fn runtime_suspend_started(&mut self, now: u64) -> (r: Result<(), HRESULT>)
        requires
            old(self).wf(),
            now >= old(self).last_start,
            old(self).gc_pauses@.len() > 0 ==> now >= old(self).gc_pauses@.last().end,
        ensures
            r == Ok::<(), HRESULT>(()),
            final(self).wf(),
            final(self).last_start == now,
            final(self).gc_pauses@ == old(self).gc_pauses@,
            final(self).session_id == old(self).session_id,
            final(self).profiling_start == old(self).profiling_start,
            final(self).profiling_end == old(self).profiling_end,
    {
        self.last_start = now;
        Ok(())
    }

    /// The runtime starts resuming at `now`: the suspension that started at
    /// `last_start` is recorded. A suspension is under way (the latest
    /// suspension started after the latest recorded pause ended).
    pub fn runtime_resume_started(&mut self, now: u64) -> (r: Result<(), HRESULT>)
        requires
            old(self).wf(),
            now >= old(self).last_start,
            old(self).gc_pauses@.len() > 0 ==> old(self).gc_pauses@.last().end <= old(self).last_start,
        ensures
            r == Ok::<(), HRESULT>(()),
            final(self).wf(),
            final(self).gc_pauses@ == old(self).gc_pauses@.push(GCPause { start: old(self).last_start, end: now }),
            final(self).last_start == old(self).last_start,
            final(self).session_id == old(self).session_id,
            final(self).profiling_start == old(self).profiling_start,
            final(self).profiling_end == old(self).profiling_end,
    {
        let gc_pause = GCPause { start: self.last_start, end: now };
        self.gc_pauses.push(gc_pause);
        proof {
            let ps = self.gc_pauses@;
            assert forall|j: int, k: int| 0 <= j < k < ps.len() implies (#[trigger] ps[j]).end <= (#[trigger] ps[k]).start by {
                if k == ps.len() - 1 && j < k {
                    assert(ps[j] == old(self).gc_pauses@[j]);
                    if j < ps.len() - 2 {
                        assert(old(self).gc_pauses@[j].end <= old(self).gc_pauses@.last().start);
                    }
                }
            }
        }
        Ok(())
    }

    /// The profiler attaches: it asks for suspension events (a refusal is not
    /// fatal), then joins the session whose identifier the launcher handed over
    /// (`data_length` bytes reading `session_text`), failing with `E_FAIL` when
    /// that is empty or not a UUID.
    pub fn initialize_for_attach<P: CorProfilerInfo>(&mut self, pinfo: &P, data_length: u32, session_text: &str) -> (r: Result<(), HRESULT>)
        requires
            old(self).wf(),
        ensures
            final(self).wf(),
            exists|answer: Result<(), HRESULT>| #[trigger] pinfo.event_mask_answer(COR_PRF_MONITOR_SUSPENDS, answer),
            match spec_session(data_length, uuid_parse(session_text@)) {
                Ok(id) => r == Ok::<(), HRESULT>(()) && final(self).session_id == id,
                Err(e) => r == Err::<(), HRESULT>(e) && final(self).session_id == old(self).session_id,
            },
            final(self).gc_pauses@ == old(self).gc_pauses@,
            final(self).last_start == old(self).last_start,
            final(self).profiling_start == old(self).profiling_start,
            final(self).profiling_end == old(self).profiling_end,
    {
        let answer = pinfo.set_event_mask(COR_PRF_MONITOR_SUSPENDS);
        assert(pinfo.event_mask_answer(COR_PRF_MONITOR_SUSPENDS, answer));
        match init_session(data_length, session_text) {
            Ok(uuid) => {
                self.session_id = uuid;
                Ok(())
            },
            Err(err) => Err(err),
        }
    }

    /// The profiler finished attaching at `now`: profiling starts.
    pub fn profiler_attach_complete(&mut self, now: u64)
        requires
            old(self).wf(),
        ensures
            final(self).wf(),
            final(self).profiling_start == now,
            final(self).gc_pauses@ == old(self).gc_pauses@,
            final(self).last_start == old(self).last_start,
            final(self).session_id == old(self).session_id,
            final(self).profiling_end == old(self).profiling_end,
    {
        self.profiling_start = now;
    }

    /// The profiler detached at `now`: profiling ends, and the figures of the
    /// report are computed over one-second, 400 ms and 50 ms windows.
    pub fn profiler_detach_succeeded(&mut self, now: u64) -> (r: GCPauseReport)
        requires
            old(self).wf(),
            old(self).gc_pauses@.len() > 0,
            now + 1_000_000_000 <= u64::MAX,
        ensures
            final(self).wf(),
            final(self).profiling_end == now,
            final(self).gc_pauses@ == old(self).gc_pauses@,
            final(self).last_start == old(self).last_start,
            final(self).session_id == old(self).session_id,
            final(self).profiling_start == old(self).profiling_start,
            r.total_time == (if now >= old(self).profiling_start { now - old(self).profiling_start } else { 0 }),
            r.total_suspended_time == total_length(old(self).gc_pauses@),
            final(self).is_window_report(1_000_000_000, r.durations_1000ms@),
            final(self).is_window_report(400_000_000, r.durations_400ms@),
            final(self).is_window_report(50_000_000, r.durations_50ms@),
    {
        self.profiling_end = now;
        let total_time = now.saturating_sub(self.profiling_start);
        let total_suspended_time = self.total_suspended_time();
        let durations_1000ms = self.get_durations(1_000_000_000);
        let durations_400ms = self.get_durations(400_000_000);
        let durations_50ms = self.get_durations(50_000_000);
        GCPauseReport { total_time, total_suspended_time, durations_1000ms, durations_400ms, durations_50ms }
    }

    /// Total time spent in the recorded pauses.
    pub fn total_suspended_time(&self) -> (r: u64)
        requires
            self.wf(),
        ensures
            r == total_length(self.gc_pauses@),
    {
        let ghost ps = self.gc_pauses@;
        let mut total: u64 = 0;
        let mut i: usize = 0;
        while i < self.gc_pauses.len()
            invariant
                ps == self.gc_pauses@,
                pauses_ordered(ps),
                i <= ps.len(),
                total == total_length(ps.take(i as int)),
                i > 0 ==> total + ps[0].start <= ps[i - 1].end,
            decreases ps.len() - i,
        {
            let p = self.gc_pauses[i];
            proof {
                assert(ps.take(i + 1).drop_last() =~= ps.take(i as int));
                assert(ps[i as int].start <= ps[i as int].end);
                if i > 0 {
                    assert(ps[i - 1].end <= ps[i as int].start);
                    assert(ps[0].start <= ps[0].end);
                }
            }
            total = total + (p.end - p.start);
            i = i + 1;
        }
        assert(ps.take(ps.len() as int) =~= ps);
        total
    }

    /// Suspended time of each window of length `interval` after the start of
    /// profiling, in ascending order. Windows are taken while they begin before
    /// the end of profiling and stop at the one in which the last pause ends.
    pub fn get_durations(&self, interval: u64) -> (r: Vec<u64>)
        requires
            self.wf(),
            self.gc_pauses@.len() > 0,
            interval > 0,
            self.profiling_end + interval <= u64::MAX,
        ensures
            self.is_window_report(interval, r@),
    {
        let durations = self.window_durations(interval);
        let r = sort_durations(durations);
        proof {
            vstd::seq_lib::to_multiset_len(r@);
            vstd::seq_lib::to_multiset_len(durations@);
        }
        r
    }

    /// Suspended time of each window, in the order of the windows.
    fn window_durations(&self, interval: u64) -> (r: Vec<u64>)
        requires
            self.wf(),
            self.gc_pauses@.len() > 0,
            interval > 0,
            self.profiling_end + interval <= u64::MAX,
        ensures
            forall|k: int| 0 <= k < r@.len() ==> !window_stops(self.gc_pauses@, self.profiling_start, self.profiling_end, interval, k),
            window_stops(self.gc_pauses@, self.profiling_start, self.profiling_end, interval, r@.len() as int),
            r@ == self.spec_window_durations(interval, r@.len() as int),
    {
        let ghost ps = self.gc_pauses@;
        let ghost start = self.profiling_start;
        let ghost end = self.profiling_end;
        let n = self.gc_pauses.len();
        let mut current = self.profiling_start;
        let mut last_start = self.gc_pauses[0].start;
        let mut i: usize = 0;
        let mut durations: Vec<u64> = Vec::new();
        let ghost mut k: int = 0;
        while current < self.profiling_end
            invariant_except_break
                ps == self.gc_pauses@,
                start == self.profiling_start,
                end == self.profiling_end,
                n == ps.len(),
                n > 0,
                pauses_ordered(ps),
                interval > 0,
                end + interval <= u64::MAX,
                i < n,
                k >= 0,
                k == 0 ==> i == 0,
                current == start + k * interval,
                last_start == max_int(ps[i as int].start as int, window_lo(start, interval, k)),
                ps[i as int].end >= window_lo(start, interval, k),
                forall|j: int| 0 <= j < i ==> ps[j].end < window_lo(start, interval, k),
                durations@ == self.spec_window_durations(interval, k),
                forall|m: int| 0 <= m < k ==> !window_stops(ps, start, end, interval, m),
            ensures
                durations@ == self.spec_window_durations(interval, durations@.len() as int),
                forall|m: int| 0 <= m < durations@.len() ==> !window_stops(ps, start, end, interval, m),
                window_stops(ps, start, end, interval, durations@.len() as int),
            decreases end + interval - current,
        {
            let ghost lo = window_lo(start, interval, k);
            let ghost hi = window_hi(start, interval, k);
            proof {
                assert(start + (k + 1) * interval == start + k * interval + interval) by (nonlinear_arith);
                assert(k * interval >= 0) by (nonlinear_arith) requires k >= 0;
                lemma_window_total_zero(ps.take(i as int), lo, hi);
            }
            current = current + interval;
            let mut duration: u64 = 0;
            let mut finished = false;
            while !finished && last_start < current
                invariant
                    ps == self.gc_pauses@,
                    n == ps.len(),
                    pauses_ordered(ps),
                    i < n,
                    current == hi,
                    hi > lo,
                    lo >= 0,
                    last_start >= lo,
                    last_start >= ps[i as int].start,
                    last_start <= ps[i as int].end || last_start == ps[i as int].start,
                    last_start <= hi || last_start == max_int(ps[i as int].start as int, lo),
                    ps[i as int].end >= lo,
                    forall|j: int| 0 <= j < i ==> ps[j].end < hi,
                    !finished ==> duration <= last_start,
                    !finished ==> duration == window_total(ps.take(i as int), lo, hi)
                        + (last_start - max_int(ps[i as int].start as int, lo)),
                    finished ==> i == n - 1 && ps[i as int].end < hi,
                decreases n - i + (if finished { 0int } else { 1int }), hi - last_start,
            {
                let p = self.gc_pauses[i];
                if p.end < current {
                    proof {
                        assert(ps.take(i + 1).drop_last() =~= ps.take(i as int));
                        assert(ps.take(i + 1).last() == ps[i as int]);
                    }
                    duration = duration + (p.end - last_start);
                    if i + 1 >= n {
                        finished = true;
                    } else {
                        i = i + 1;
                        proof {
                            assert(ps[i - 1].end <= ps[i as int].start);
                            assert(ps[i as int].start <= ps[i as int].end);
                        }
                        last_start = self.gc_pauses[i].start;
                    }
                } else {
                    duration = duration + (current - last_start);
                    last_start = current;
                }
            }
            if finished {
                break;
            }
            proof {
                let si = ps[i as int].start as int;
                let ei = ps[i as int].end as int;
                assert(ei >= hi);
                assert forall|j: int| i < j < ps.len() implies overlap(ps[j], lo, hi) == 0 by {
                    assert(ps[i as int].end <= ps[j].start);
                }
                lemma_window_total_rest(ps, lo, hi, i as int);
                assert(ps[n - 1].end >= hi) by {
                    if i < n - 1 {
                        assert(ps[i as int].end <= ps[n - 1].start);
                        assert(ps[n - 1].start <= ps[n - 1].end);
                    }
                }
                assert(ps.last() == ps[n - 1]);
            }
            durations.push(duration);
            proof {
                k = k + 1;
                assert(durations@ =~= self.spec_window_durations(interval, k));
                assert forall|j: int| 0 <= j < i implies ps[j].end < window_lo(start, interval, k) by {}
            }
        }
        durations
    }
}

/// The larger of two integers.
pub open spec fn max_int(a: int, b: int) -> int {
    if a >= b { a } else { b }
}

/// Pauses that all ended before a window began contribute nothing to it.
proof fn lemma_window_total_zero(ps: Seq<GCPause>, lo: int, hi: int)
    requires
        forall|j: int| 0 <= j < ps.len() ==> ps[j].end < lo,
    ensures
        window_total(ps, lo, hi) == 0,
    decreases ps.len(),
{
    if ps.len() > 0 {
        let q = ps.drop_last();
        assert forall|j: int| 0 <= j < q.len() implies q[j].end < lo by {
            assert(q[j] == ps[j]);
        }
        lemma_window_total_zero(q, lo, hi);
        assert(ps.last() == ps[ps.len() - 1]);
    }
}

/// Once the pauses after `i` contribute nothing, the window total is the prefix
/// total plus the overlap of pause `i`.
proof fn lemma_window_total_rest(ps: Seq<GCPause>, lo: int, hi: int, i: int)
    requires
        0 <= i < ps.len(),
        forall|j: int| i < j < ps.len() ==> overlap(ps[j], lo, hi) == 0,
    ensures
        window_total(ps, lo, hi) == window_total(ps.take(i), lo, hi) + overlap(ps[i], lo, hi),
    decreases ps.len(),
{
    if ps.len() == i + 1 {
        assert(ps.drop_last() =~= ps.take(i));
        assert(ps.last() == ps[i]);
    } else {
        let q = ps.drop_last();
        assert forall|j: int| i < j < q.len() implies overlap(q[j], lo, hi) == 0 by {
            assert(q[j] == ps[j]);
        }
        lemma_window_total_rest(q, lo, hi, i);
        assert(q.take(i) =~= ps.take(i));
        assert(q[i] == ps[i]);
        assert(ps.last() == ps[ps.len() - 1]);
    }
}

/// Ordered pauses never fill more of a window than the window holds: their
/// suspended time inside `[lo, hi)` is at most `hi - lo`, and at most the part
/// of the window before the last pause ends.
pub proof fn lemma_window_total_bounded(ps: Seq<GCPause>, lo: int, hi: int)
    requires
        pauses_ordered(ps),
        0 <= lo <= hi,
    ensures
        window_total(ps, lo, hi) <= hi - lo,
        ps.len() > 0 ==> window_total(ps, lo, hi) <= max_int(0, min_int(ps.last().end as int, hi) - lo),
    decreases ps.len(),
{
    if ps.len() > 0 {
        let q = ps.drop_last();
        let last = ps.last();
        assert(last == ps[ps.len() - 1]);
        assert(last.start <= last.end);
        assert forall|j: int| 0 <= j < q.len() implies (#[trigger] q[j]).start <= q[j].end by {
            assert(q[j] == ps[j]);
        }
        assert forall|j: int, k: int| 0 <= j < k < q.len() implies (#[trigger] q[j]).end <= (#[trigger] q[k]).start by {
            assert(q[j] == ps[j] && q[k] == ps[k]);
        }
        lemma_window_total_bounded(q, lo, hi);
        if q.len() > 0 {
            assert(q.last() == ps[ps.len() - 2]);
            assert(q.last().end <= last.start);
        }
    }
}

/// The smaller of two integers.
pub open spec fn min_int(a: int, b: int) -> int {
    if a <= b { a } else { b }
}

/// Every window after the first holds at most `interval` of suspended time.
pub proof fn lemma_window_durations_bounded(p: GCPauseProfiler, interval: u64, count: int, k: int)
    requires
        p.wf(),
        1 <= k < count,
    ensures
        p.spec_window_durations(interval, count)[k] <= interval,
{
    let lo = window_lo(p.profiling_start, interval, k);
    let hi = window_hi(p.profiling_start, interval, k);
    assert(hi - lo == interval) by (nonlinear_arith)
        requires lo == p.profiling_start + k * interval, hi == p.profiling_start + (k + 1) * interval;
    assert(lo >= 0) by (nonlinear_arith)
        requires lo == p.profiling_start + k * interval, k >= 1, interval >= 0;
    lemma_window_total_bounded(p.gc_pauses@, lo, hi);
    assert(window_total(p.gc_pauses@, lo, hi) >= 0) by {
        lemma_window_total_nonneg(p.gc_pauses@, lo, hi);
    }
}

/// Suspended time is never negative.
pub proof fn lemma_window_total_nonneg(ps: Seq<GCPause>, lo: int, hi: int)
    ensures
        window_total(ps, lo, hi) >= 0,
    decreases ps.len(),
{
    if ps.len() > 0 {
        lemma_window_total_nonneg(ps.drop_last(), lo, hi);
    }
}

/// Sum of a sequence of durations.
pub open spec fn sum_u64(s: Seq<u64>) -> int
    decreases s.len(),
{
    if s.len() == 0 { 0 } else { sum_u64(s.drop_last()) + s.last() }
}

/// Taking one element out of a sequence takes its value off the sum.
proof fn lemma_sum_remove(s: Seq<u64>, i: int)
    requires
        0 <= i < s.len(),
    ensures
        sum_u64(s) == sum_u64(s.remove(i)) + s[i],
    decreases s.len(),
{
    if i == s.len() - 1 {
        assert(s.remove(i) =~= s.drop_last());
    } else {
        lemma_sum_remove(s.drop_last(), i);
        assert(s.remove(i).drop_last() =~= s.drop_last().remove(i));
        assert(s.remove(i).last() == s.last());
    }
}

/// Sequences holding the same durations, in any order, have the same sum.
proof fn lemma_sum_same_multiset(a: Seq<u64>, b: Seq<u64>)
    requires
        a.to_multiset() == b.to_multiset(),
    ensures
        sum_u64(a) == sum_u64(b),
    decreases a.len(),
{
    broadcast use vstd::seq_lib::group_to_multiset_ensures;
    broadcast use vstd::multiset::group_multiset_axioms;
    if a.len() == 0 {
        assert(b.to_multiset().len() == 0);
        assert(b.len() == 0);
    } else {
        let x = a.last();
        assert(a.drop_last().push(x) =~= a);
        assert(a.to_multiset() =~= a.drop_last().to_multiset().insert(x));
        assert(a.to_multiset().count(x) > 0);
        assert(b.contains(x));
        let i = choose|i: int| 0 <= i < b.len() && b[i] == x;
        assert(b.remove(i).to_multiset() =~= b.to_multiset().remove(x));
        assert(b.remove(i).to_multiset() =~= a.drop_last().to_multiset());
        lemma_sum_same_multiset(a.drop_last(), b.remove(i));
        lemma_sum_remove(b, i);
    }
}

/// Splitting a window in two splits each pause's share of it.
proof fn lemma_overlap_split(p: GCPause, lo: int, mid: int, hi: int)
    requires
        lo <= mid <= hi,
    ensures
        overlap(p, lo, mid) + overlap(p, mid, hi) == overlap(p, lo, hi),
{
}

/// Splitting a window in two splits the suspended time inside it.
proof fn lemma_window_total_split(ps: Seq<GCPause>, lo: int, mid: int, hi: int)
    requires
        lo <= mid <= hi,
    ensures
        window_total(ps, lo, mid) + window_total(ps, mid, hi) == window_total(ps, lo, hi),
    decreases ps.len(),
{
    if ps.len() > 0 {
        lemma_window_total_split(ps.drop_last(), lo, mid, hi);
        lemma_overlap_split(ps.last(), lo, mid, hi);
    }
}

/// The suspended time inside a window is at most the whole suspended time.
proof fn lemma_window_total_within(ps: Seq<GCPause>, lo: int, hi: int)
    requires
        pauses_ordered(ps),
    ensures
        window_total(ps, lo, hi) <= total_length(ps),
    decreases ps.len(),
{
    if ps.len() > 0 {
        let q = ps.drop_last();
        assert forall|j: int| 0 <= j < q.len() implies (#[trigger] q[j]).start <= q[j].end by {
            assert(q[j] == ps[j]);
        }
        assert forall|j: int, k: int| 0 <= j < k < q.len() implies (#[trigger] q[j]).end <= (#[trigger] q[k]).start by {
            assert(q[j] == ps[j] && q[k] == ps[k]);
        }
        lemma_window_total_within(q, lo, hi);
        assert(ps.last() == ps[ps.len() - 1]);
    }
}

/// The whole suspended time of ordered pauses fits between the first start and
/// the last end.
proof fn lemma_total_length_span(ps: Seq<GCPause>)
    requires
        pauses_ordered(ps),
        ps.len() > 0,
    ensures
        0 <= total_length(ps) <= ps.last().end - ps[0].start,
    decreases ps.len(),
{
    let q = ps.drop_last();
    assert(ps.last() == ps[ps.len() - 1]);
    assert(ps[0].start <= ps[0].end);
    assert(ps.last().start <= ps.last().end);
    assert(total_length(ps) == total_length(q) + (ps.last().end - ps.last().start));
    if q.len() == 0 {
        assert(total_length(q) == 0);
        assert(ps[0] == ps.last());
    } else {
        assert forall|j: int| 0 <= j < q.len() implies (#[trigger] q[j]).start <= q[j].end by {
            assert(q[j] == ps[j]);
        }
        assert forall|j: int, k: int| 0 <= j < k < q.len() implies (#[trigger] q[j]).end <= (#[trigger] q[k]).start by {
            assert(q[j] == ps[j] && q[k] == ps[k]);
        }
        lemma_total_length_span(q);
        assert(q.last() == ps[ps.len() - 2]);
        assert(q[0] == ps[0]);
        assert(ps[ps.len() - 2].end <= ps[ps.len() - 1].start);
    }
}

/// The windows `0..count` together hold the suspended time of `[0, end)`,
/// where `end` is the end of the last of them.
proof fn lemma_windows_cover(p: GCPauseProfiler, interval: u64, count: int)
    requires
        p.wf(),
        count >= 1,
    ensures
        sum_u64(p.spec_window_durations(interval, count))
            == window_total(p.gc_pauses@, 0, window_hi(p.profiling_start, interval, count - 1)),
    decreases count,
{
    let ps = p.gc_pauses@;
    let start = p.profiling_start;
    let s = p.spec_window_durations(interval, count);
    let lo = window_lo(start, interval, count - 1);
    let hi = window_hi(start, interval, count - 1);
    assert(hi - lo <= interval || count == 1) by (nonlinear_arith)
        requires lo == (if count - 1 == 0 { 0 } else { start + (count - 1) * interval }),
            hi == start + count * interval, count >= 1;
    assert(lo <= hi) by (nonlinear_arith)
        requires lo == (if count - 1 == 0 { 0 } else { start + (count - 1) * interval }),
            hi == start + count * interval, count >= 1, interval >= 0, start >= 0;
    lemma_window_total_nonneg(ps, lo, hi);
    lemma_window_total_within(ps, lo, hi);
    if ps.len() > 0 {
        lemma_total_length_span(ps);
    } else {
        assert(total_length(ps) == 0);
    }
    assert(0 <= window_total(ps, lo, hi) <= u64::MAX);
    assert(s.last() == window_total(ps, lo, hi));
    assert(sum_u64(s) == sum_u64(s.drop_last()) + s.last());
    if count == 1 {
        assert(s.drop_last() =~= Seq::<u64>::empty());
    } else {
        assert(s.drop_last() =~= p.spec_window_durations(interval, count - 1));
        lemma_windows_cover(p, interval, count - 1);
        let mid = window_hi(start, interval, count - 2);
        assert(mid == lo) by (nonlinear_arith)
            requires mid == start + (count - 1) * interval, lo == start + (count - 1) * interval;
        assert(0 <= mid) by (nonlinear_arith)
            requires mid == start + (count - 1) * interval, count >= 2, interval >= 0, start >= 0;
        lemma_window_total_split(ps, 0, mid, hi);
    }
}

/// The suspended times of the windows of a report add up to no more than the
/// time spent in all recorded pauses.
pub proof fn lemma_window_report_within_suspended_time(p: GCPauseProfiler, interval: u64, r: Seq<u64>)
    requires
        p.wf(),
        p.is_window_report(interval, r),
    ensures
        sum_u64(r) <= total_length(p.gc_pauses@),
{
    let count = r.len() as int;
    let s = p.spec_window_durations(interval, count);
    lemma_sum_same_multiset(r, s);
    if p.gc_pauses@.len() > 0 {
        lemma_total_length_span(p.gc_pauses@);
    } else {
        assert(total_length(p.gc_pauses@) == 0);
    }
    if count == 0 {
        assert(s =~= Seq::<u64>::empty());
        assert(sum_u64(s) == 0);
    } else {
        lemma_windows_cover(p, interval, count);
        lemma_window_total_within(p.gc_pauses@, 0, window_hi(p.profiling_start, interval, count - 1));
    }
}

/// Sorts the window durations into ascending order.
pub fn sort_durations(v: Vec<u64>) -> (r: Vec<u64>)
    ensures
        sorted_u64(r@),
        r@.to_multiset() == v@.to_multiset(),
{
    let mut out: Vec<u64> = Vec::new();
    let mut i: usize = 0;
    assert(out@ =~= v@.take(0));
    while i < v.len()
        invariant
            i <= v@.len(),
            sorted_u64(out@),
            out@.to_multiset() == v@.take(i as int).to_multiset(),
        decreases v@.len() - i,
    {
        let x = v[i];
        let mut pos: usize = 0;
        while pos < out.len() && out[pos] <= x
            invariant
                pos <= out@.len(),
                forall|j: int| 0 <= j < pos ==> out@[j] <= x,
            decreases out@.len() - pos,
        {
            pos = pos + 1;
        }
        let ghost before = out@;
        out.insert(pos, x);
        proof {
            to_multiset_insert(before, pos as int, x);
            assert(v@.take(i + 1) =~= v@.take(i as int).push(x));
            vstd::seq_lib::to_multiset_build(v@.take(i as int), x);
            assert(out@ == before.insert(pos as int, x));
            assert forall|a: int, b: int| 0 <= a <= b < out@.len() implies out@[a] <= out@[b] by {
                if b < pos {
                    assert(out@[a] == before[a] && out@[b] == before[b]);
                } else if b == pos {
                    assert(out@[b] == x);
                    if a < pos { assert(out@[a] == before[a]); }
                } else {
                    assert(out@[b] == before[b - 1]);
                    assert(before[pos as int] > x);
                    if a < pos {
                        assert(out@[a] == before[a]);
                    } else if a == pos {
                        assert(out@[a] == x);
                    } else {
                        assert(out@[a] == before[a - 1]);
                    }
                }
            }
        }
        i = i + 1;
    }
    assert(v@.take(v@.len() as int) =~= v@);
    out
}

} // verus!
