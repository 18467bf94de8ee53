//! The bookkeeping of GPU timer queries and the statistics of the timings
//! they yield.
//!
//! The timers themselves live with the GL context: they create, begin, end,
//! read and delete the queries. What they decide (whether a query is begun,
//! which query is ended and polled, which samples are kept) is decided here.

use vstd::prelude::*;
use std::collections::VecDeque;
use std::time::Duration;

verus! {

/// The duration of `nanos` nanoseconds (as `Duration::from_nanos` builds
/// it).
pub uninterp spec fn spec_duration_from_nanos(nanos: u64) -> Duration;

/// Calls `Duration::from_nanos`; its result is named
/// `spec_duration_from_nanos(nanos)`, a function of the argument alone.
#[verifier::external_body]
fn duration_from_nanos(nanos: u64) -> (d: Duration)
    ensures
        d == spec_duration_from_nanos(nanos),
{
    Duration::from_nanos(nanos)
}

/// Statistics over the kept samples of a [`FrameTimer`].
#[derive(Debug, Clone, Copy)]
pub struct TimingInfo {
    pub num_samples: usize,
    pub average: Duration,
    pub min: Duration,
    pub max: Duration,
}

/// Statistics over the kept samples of a [`DrawTimer`].
#[derive(Debug, Clone, Copy)]
pub struct DrawTimingInfo {
    pub num_samples: usize,
    pub average: Duration,
    pub min: Duration,
    pub max: Duration,
}

/// The sum of a sequence of nanosecond counts.
pub open spec fn sum_nanos(s: Seq<u64>) -> int
    decreases s.len(),
{
    if s.len() == 0 {
        0
    } else {
        sum_nanos(s.drop_last()) + s.last()
    }
}

/// The least element of a non-empty sequence.
pub open spec fn min_nanos(s: Seq<u64>) -> u64
    decreases s.len(),
{
    if s.len() <= 1 {
        s[0]
    } else if s.last() < min_nanos(s.drop_last()) {
        s.last()
    } else {
        min_nanos(s.drop_last())
    }
}

/// The greatest element of a non-empty sequence.
pub open spec fn max_nanos(s: Seq<u64>) -> u64
    decreases s.len(),
{
    if s.len() <= 1 {
        s[0]
    } else if s.last() > max_nanos(s.drop_last()) {
        s.last()
    } else {
        max_nanos(s.drop_last())
    }
}

/// Sample count, mean (rounded down), least and greatest of a non-empty
/// sequence of nanosecond counts.
pub struct Stats {
    pub num_samples: usize,
    pub average_nanos: u64,
    pub min_nanos: u64,
    pub max_nanos: u64,
}

proof fn lemma_sum_bound(s: Seq<u64>)
    ensures
        0 <= sum_nanos(s) <= s.len() * u64::MAX,
    decreases s.len(),
{
    if s.len() > 0 {
        lemma_sum_bound(s.drop_last());
    }
}

/// The minimum and maximum are elements of the sequence and bound it.
pub proof fn lemma_min_max_bound(s: Seq<u64>)
    requires
        s.len() > 0,
    ensures
        forall|i: int| 0 <= i < s.len() ==> min_nanos(s) <= #[trigger] s[i] <= max_nanos(s),
        s.contains(min_nanos(s)),
        s.contains(max_nanos(s)),
        s.len() * min_nanos(s) <= sum_nanos(s) <= s.len() * max_nanos(s),
    decreases s.len(),
{
    if s.len() > 1 {
        let p = s.drop_last();
        lemma_min_max_bound(p);
        assert forall|i: int| 0 <= i < s.len() implies min_nanos(s) <= #[trigger] s[i] <= max_nanos(s) by {
            if i < s.len() - 1 {
                assert(s[i] == p[i]);
            }
        }
        if !(s.last() < min_nanos(p)) {
            let j = choose|j: int| 0 <= j < p.len() && p[j] == min_nanos(p);
            assert(s[j] == min_nanos(s));
        } else {
            assert(s[s.len() - 1] == min_nanos(s));
        }
        if !(s.last() > max_nanos(p)) {
            let j = choose|j: int| 0 <= j < p.len() && p[j] == max_nanos(p);
            assert(s[j] == max_nanos(s));
        } else {
            assert(s[s.len() - 1] == max_nanos(s));
        }
        assert(p.len() * min_nanos(s) <= p.len() * min_nanos(p)) by (nonlinear_arith)
            requires
                min_nanos(s) <= min_nanos(p),
        ;
        assert(p.len() * max_nanos(p) <= p.len() * max_nanos(s)) by (nonlinear_arith)
            requires
                max_nanos(p) <= max_nanos(s),
        ;
        assert(s.len() * min_nanos(s) == p.len() * min_nanos(s) + min_nanos(s)) by (nonlinear_arith)
            requires
                s.len() == p.len() + 1,
        ;
        assert(s.len() * max_nanos(s) == p.len() * max_nanos(s) + max_nanos(s)) by (nonlinear_arith)
            requires
                s.len() == p.len() + 1,
        ;
        assert(sum_nanos(s) == sum_nanos(p) + s.last());
        assert(min_nanos(s) <= s[s.len() - 1] <= max_nanos(s));
    } else {
        assert(s[0] == s.last());
        assert(s.drop_last().len() == 0);
        assert(sum_nanos(s.drop_last()) == 0);
        assert(sum_nanos(s) == s[0]);
    }
}

/// The mean of the samples, rounded down, lies between their least and
/// their greatest element.
pub proof fn lemma_average_between_min_and_max(s: Seq<u64>)
    requires
        s.len() > 0,
    ensures
        min_nanos(s) <= sum_nanos(s) / (s.len() as int) <= max_nanos(s),
{
    lemma_min_max_bound(s);
    let n = s.len() as int;
    let total = sum_nanos(s);
    let lo = min_nanos(s) as int;
    let hi = max_nanos(s) as int;
    assert(lo <= total / n <= hi) by (nonlinear_arith)
        requires
            n > 0,
            n * lo <= total,
            total <= n * hi,
    ;
}

/// The statistics of a non-empty sequence of nanosecond counts.
pub fn timing_stats(samples: &Vec<u64>) -> (r: Stats)
    requires
        samples@.len() > 0,
    ensures
        r.num_samples == samples@.len(),
        r.average_nanos == sum_nanos(samples@) / (samples@.len() as int),
        r.min_nanos == min_nanos(samples@),
        r.max_nanos == max_nanos(samples@),
{
    let n = samples.len();
    let mut sum: u128 = 0;
    let mut lo: u64 = samples[0];
    let mut hi: u64 = samples[0];
    let mut i: usize = 0;
    while i < n
        invariant
            n == samples@.len(),
            n > 0,
            i <= n,
            sum == sum_nanos(samples@.take(i as int)),
            i > 0 ==> lo == min_nanos(samples@.take(i as int)),
            i > 0 ==> hi == max_nanos(samples@.take(i as int)),
            i == 0 ==> lo == samples@[0] && hi == samples@[0],
        decreases n - i,
    {
        let ghost t = samples@.take(i + 1);
        assert(t.drop_last() =~= samples@.take(i as int));
        proof {
            lemma_sum_bound(samples@.take(i as int));
            assert(i * u64::MAX < 0x1_0000_0000_0000_0000 * 0x1_0000_0000_0000_0000) by (nonlinear_arith)
                requires
                    i < 0x1_0000_0000_0000_0000,
            ;
        }
        let x = samples[i];
        sum = sum + x as u128;
        if i == 0 {
            lo = x;
            hi = x;
        } else {
            if x < lo {
                lo = x;
            }
            if x > hi {
                hi = x;
            }
        }
        i += 1;
    }
    assert(samples@.take(n as int) =~= samples@);
    proof {
        lemma_min_max_bound(samples@);
    }
    let avg = sum / (n as u128);
    assert(avg <= u64::MAX) by (nonlinear_arith)
        requires
            avg == sum / (n as u128),
            sum <= n * max_nanos(samples@),
            n > 0,
            max_nanos(samples@) <= u64::MAX,
    ;
    Stats { num_samples: n, average_nanos: avg as u64, min_nanos: lo, max_nanos: hi }
}

/// The statistics of a non-empty sequence of samples: their number, their
/// mean rounded down, their least and their greatest element.
pub open spec fn timing_info_of(s: Seq<u64>) -> TimingInfo {
    TimingInfo {
        num_samples: s.len() as usize,
        average: spec_duration_from_nanos((sum_nanos(s) / (s.len() as int)) as u64),
        min: spec_duration_from_nanos(min_nanos(s)),
        max: spec_duration_from_nanos(max_nanos(s)),
    }
}

/// `s` with `x` pushed to its back, after which the front element is
/// dropped if more than `max` remain.
pub open spec fn push_bounded<T>(s: Seq<T>, x: T, max: usize) -> Seq<T> {
    if s.len() + 1 > max {
        s.push(x).drop_first()
    } else {
        s.push(x)
    }
}

/// A timer of the GPU time that drawing takes, keeping the most recent
/// samples.
///
/// One query at a time measures the time between `start_draw` and
/// `end_draw`; ended queries wait in a queue until their result is
/// available. No query is begun while ended queries wait.
pub struct FrameTimer<Q> {
    max_samples: usize,
    is_supported: bool,
    last_query: Option<Q>,
    poll_queries: VecDeque<Q>,
    sample_nanos: VecDeque<u64>,
}

impl<Q: Copy> FrameTimer<Q> {
    /// The maximal number of kept samples and of waiting queries.
    pub closed spec fn spec_max_samples(&self) -> usize {
        self.max_samples
    }

    /// Whether the GL supports timer queries.
    pub closed spec fn spec_is_supported(&self) -> bool {
        self.is_supported
    }

    /// The query that measures the current draw, if any.
    pub closed spec fn spec_last_query(&self) -> Option<Q> {
        self.last_query
    }

    /// The ended queries whose results have not been read, oldest first.
    pub closed spec fn spec_poll_queries(&self) -> Seq<Q> {
        self.poll_queries@
    }

    /// The kept samples in nanoseconds, oldest first.
    pub closed spec fn spec_samples(&self) -> Seq<u64> {
        self.sample_nanos@
    }

    /// What every operation keeps: at most `max_samples` samples and
    /// waiting queries; while a draw is measured, no query waits; without
    /// timer query support, nothing is measured or kept.
    pub open spec fn wf(&self) -> bool {
        &&& self.spec_samples().len() <= self.spec_max_samples()
        &&& self.spec_poll_queries().len() <= self.spec_max_samples()
        &&& self.spec_last_query() is Some ==> self.spec_poll_queries().len() == 0
        &&& !self.spec_is_supported() ==> {
            &&& self.spec_last_query() is None
            &&& self.spec_poll_queries().len() == 0
            &&& self.spec_samples().len() == 0
        }
    }

    /// A timer that keeps at most `max_samples` samples; `is_supported`
    /// tells whether the GL supports timer queries.
    pub fn new(max_samples: usize, is_supported: bool) -> (t: Self)
        ensures
            t.wf(),
            t.spec_max_samples() == max_samples,
            t.spec_is_supported() == is_supported,
            t.spec_last_query() is None,
            t.spec_poll_queries() == Seq::<Q>::empty(),
            t.spec_samples() == Seq::<u64>::empty(),
    {
        Self {
            max_samples,
            is_supported,
            last_query: None,
            poll_queries: VecDeque::new(),
            sample_nanos: VecDeque::new(),
        }
    }

    /// Whether a query is to be begun for the draw that starts now: only
    /// when queries are supported and none waits for its result.
    pub fn start_draw(&self) -> (begin: bool)
        requires
            self.spec_is_supported() ==> self.spec_last_query() is None,
        ensures
            begin == (self.spec_is_supported() && self.spec_poll_queries().len() == 0),
    {
        self.is_supported && self.poll_queries.len() == 0
    }

    /// Records that `query` was begun for the current draw.
    pub fn query_begun(&mut self, query: Q)
        requires
            old(self).wf(),
            old(self).spec_is_supported(),
            old(self).spec_poll_queries().len() == 0,
        ensures
            final(self).wf(),
            final(self).spec_last_query() == Some(query),
            final(self).spec_poll_queries() == old(self).spec_poll_queries(),
            final(self).spec_samples() == old(self).spec_samples(),
            final(self).spec_max_samples() == old(self).spec_max_samples(),
            final(self).spec_is_supported() == old(self).spec_is_supported(),
    {
        self.last_query = Some(query);
    }

    /// Ends the current draw: the query that measured it, if any, is
    /// returned to be ended and is queued for polling, the oldest waiting
    /// query being dropped if more than `max_samples` wait.
    pub fn end_draw(&mut self) -> (ended: Option<Q>)
        requires
            old(self).wf(),
        ensures
            final(self).wf(),
            ended == (if old(self).spec_is_supported() {
                old(self).spec_last_query()
            } else {
                None
            }),
            final(self).spec_last_query() is None,
            final(self).spec_poll_queries() == (match ended {
                Some(q) => push_bounded(
                    old(self).spec_poll_queries(),
                    q,
                    old(self).spec_max_samples(),
                ),
                None => old(self).spec_poll_queries(),
            }),
            final(self).spec_samples() == old(self).spec_samples(),
            final(self).spec_max_samples() == old(self).spec_max_samples(),
            final(self).spec_is_supported() == old(self).spec_is_supported(),
    {
        if !self.is_supported {
            return None;
        }
        match self.last_query {
            Some(query) => {
                self.poll_queries.push_back(query);
                if self.poll_queries.len() > self.max_samples {
                    self.poll_queries.pop_front();
                }
                self.last_query = None;
                Some(query)
            },
            None => None,
        }
    }

    /// Whether the current draw is measured by a query.
    pub fn is_measuring(&self) -> (r: bool)
        ensures
            r == self.spec_last_query() is Some,
    {
        self.last_query.is_some()
    }

    /// All queries that wait for their results, oldest first.
    pub fn waiting_queries(&self) -> (r: Vec<Q>)
        ensures
            r@ == self.spec_poll_queries(),
    {
        let mut r: Vec<Q> = Vec::new();
        let mut i: usize = 0;
        while i < self.poll_queries.len()
            invariant
                i <= self.poll_queries@.len(),
                r@ == self.poll_queries@.take(i as int),
            decreases self.poll_queries@.len() - i,
        {
            r.push(self.poll_queries[i]);
            assert(r@ =~= self.poll_queries@.take(i + 1));
            i += 1;
        }
        assert(r@ =~= self.poll_queries@);
        r
    }

    /// The oldest query that waits for its result, if any.
    pub fn pending_query(&self) -> (q: Option<Q>)
        ensures
            q == (if self.spec_poll_queries().len() > 0 {
                Some(self.spec_poll_queries()[0])
            } else {
                None
            }),
    {
        if self.poll_queries.len() > 0 {
            Some(self.poll_queries[0])
        } else {
            None
        }
    }

    /// Records the result `nanos` of the oldest waiting query, which is
    /// returned to be deleted; the oldest sample is dropped if more than
    /// `max_samples` are kept.
    pub fn record_sample(&mut self, nanos: u32) -> (done: Q)
        requires
            old(self).wf(),
            old(self).spec_poll_queries().len() > 0,
        ensures
            final(self).wf(),
            done == old(self).spec_poll_queries()[0],
            final(self).spec_poll_queries() == old(self).spec_poll_queries().drop_first(),
            final(self).spec_samples() == push_bounded(
                old(self).spec_samples(),
                nanos as u64,
                old(self).spec_max_samples(),
            ),
            final(self).spec_last_query() == old(self).spec_last_query(),
            final(self).spec_max_samples() == old(self).spec_max_samples(),
            final(self).spec_is_supported() == old(self).spec_is_supported(),
    {
        self.sample_nanos.push_back(nanos as u64);
        if self.sample_nanos.len() > self.max_samples {
            self.sample_nanos.pop_front();
        }
        let done = self.poll_queries[0];
        self.poll_queries.pop_front();
        done
    }

    /// Takes the result `nanos` read for the oldest waiting query while
    /// polling. A zero result is not available yet: polling stops, nothing
    /// changes and `None` is returned. Any other result is recorded as
    /// [`FrameTimer::record_sample`] records it, and the query is returned
    /// to be deleted.
    pub fn poll_result(&mut self, nanos: u32) -> (done: Option<Q>)
        requires
            old(self).wf(),
            old(self).spec_poll_queries().len() > 0,
        ensures
            final(self).wf(),
            done == (if nanos == 0 {
                None
            } else {
                Some(old(self).spec_poll_queries()[0])
            }),
            final(self).spec_poll_queries() == (if nanos == 0 {
                old(self).spec_poll_queries()
            } else {
                old(self).spec_poll_queries().drop_first()
            }),
            final(self).spec_samples() == (if nanos == 0 {
                old(self).spec_samples()
            } else {
                push_bounded(old(self).spec_samples(), nanos as u64, old(self).spec_max_samples())
            }),
            final(self).spec_last_query() == old(self).spec_last_query(),
            final(self).spec_max_samples() == old(self).spec_max_samples(),
            final(self).spec_is_supported() == old(self).spec_is_supported(),
    {
        if nanos == 0 {
            None
        } else {
            Some(self.record_sample(nanos))
        }
    }

    /// Statistics over the kept samples, or `None` if none is kept.
    pub fn timing_info(&self) -> (info: Option<TimingInfo>)
        ensures
            info == (if self.spec_samples().len() == 0 {
                None
            } else {
                Some(timing_info_of(self.spec_samples()))
            }),
    {
        if self.sample_nanos.len() == 0 {
            return None;
        }
        let mut nanos: Vec<u64> = Vec::new();
        let mut i: usize = 0;
        while i < self.sample_nanos.len()
            invariant
                i <= self.sample_nanos@.len(),
                nanos@ == self.sample_nanos@.take(i as int),
            decreases self.sample_nanos@.len() - i,
        {
            nanos.push(self.sample_nanos[i]);
            assert(nanos@ =~= self.sample_nanos@.take(i + 1));
            i += 1;
        }
        assert(nanos@ =~= self.sample_nanos@);
        let stats = timing_stats(&nanos);
        Some(
            TimingInfo {
                num_samples: stats.num_samples,
                average: duration_from_nanos(stats.average_nanos),
                min: duration_from_nanos(stats.min_nanos),
                max: duration_from_nanos(stats.max_nanos),
            },
        )
    }
}

/// The maximal number of queries of a [`DrawTimer`] that wait for their
/// results.
pub const MAX_POLL_QUERIES: usize = 100;

/// The samples that remain of `samples` (pairs of the time a draw started
/// and the nanoseconds it took, oldest first) when those that started more
/// than `max_age` nanoseconds before `now` are dropped from the front.
pub open spec fn prune_samples(samples: Seq<(u64, u64)>, now: u64, max_age: u64) -> Seq<(u64, u64)>
    decreases samples.len(),
{
    if samples.len() > 0 && age(samples[0].0, now) > max_age {
        prune_samples(samples.drop_first(), now, max_age)
    } else {
        samples
    }
}

/// The time elapsed from `time` to `now`, or zero if `time` is later.
pub open spec fn age(time: u64, now: u64) -> u64 {
    if now >= time {
        (now - time) as u64
    } else {
        0
    }
}

/// The durations of a sequence of samples.
pub open spec fn sample_durations(samples: Seq<(u64, u64)>) -> Seq<u64> {
    samples.map_values(|s: (u64, u64)| s.1)
}

/// A timer of the GPU time that drawing takes, keeping the samples of the
/// draws that started within a maximal age.
///
/// Times are nanoseconds since a fixed origin chosen by the caller. Each
/// sample pairs the time its draw started with the nanoseconds the draw
/// took. At most [`MAX_POLL_QUERIES`] ended queries wait for their results.
pub struct DrawTimer<Q> {
    max_age: u64,
    is_supported: bool,
    last_query: Option<(u64, Q)>,
    poll_queries: VecDeque<(u64, Q)>,
    samples: VecDeque<(u64, u64)>,
}

/// The statistics of a non-empty sequence of samples.
pub open spec fn draw_timing_info_of(s: Seq<u64>) -> DrawTimingInfo {
    DrawTimingInfo {
        num_samples: s.len() as usize,
        average: spec_duration_from_nanos((sum_nanos(s) / (s.len() as int)) as u64),
        min: spec_duration_from_nanos(min_nanos(s)),
        max: spec_duration_from_nanos(max_nanos(s)),
    }
}

impl<Q: Copy> DrawTimer<Q> {
    /// The maximal age in nanoseconds of kept samples.
    pub closed spec fn spec_max_age(&self) -> u64 {
        self.max_age
    }

    /// Whether the GL supports timer queries.
    pub closed spec fn spec_is_supported(&self) -> bool {
        self.is_supported
    }

    /// The start time and the query of the current draw, if it is measured.
    pub closed spec fn spec_last_query(&self) -> Option<(u64, Q)> {
        self.last_query
    }

    /// The ended queries, with their start times, whose results have not
    /// been read, oldest first.
    pub closed spec fn spec_poll_queries(&self) -> Seq<(u64, Q)> {
        self.poll_queries@
    }

    /// The kept samples, oldest first.
    pub closed spec fn spec_samples(&self) -> Seq<(u64, u64)> {
        self.samples@
    }

    /// What every operation keeps: at most [`MAX_POLL_QUERIES`] waiting
    /// queries; while a draw is measured, no query waits; without timer
    /// query support, nothing is measured or kept.
    pub open spec fn wf(&self) -> bool {
        &&& self.spec_poll_queries().len() <= MAX_POLL_QUERIES
        &&& self.spec_last_query() is Some ==> self.spec_poll_queries().len() == 0
        &&& !self.spec_is_supported() ==> {
            &&& self.spec_last_query() is None
            &&& self.spec_poll_queries().len() == 0
            &&& self.spec_samples().len() == 0
        }
    }

    /// A timer that keeps the samples of draws that started at most
    /// `max_age` nanoseconds ago; `is_supported` tells whether the GL
    /// supports timer queries.
    pub fn new(max_age: u64, is_supported: bool) -> (t: Self)
        ensures
            t.wf(),
            t.spec_max_age() == max_age,
            t.spec_is_supported() == is_supported,
            t.spec_last_query() is None,
            t.spec_poll_queries() == Seq::<(u64, Q)>::empty(),
            t.spec_samples() == Seq::<(u64, u64)>::empty(),
    {
        Self {
            max_age,
            is_supported,
            last_query: None,
            poll_queries: VecDeque::new(),
            samples: VecDeque::new(),
        }
    }

    /// Whether a query is to be begun for the draw that starts now: only
    /// when queries are supported and none waits for its result.
    pub fn start_draw(&self) -> (begin: bool)
        requires
            self.spec_is_supported() ==> self.spec_last_query() is None,
        ensures
            begin == (self.spec_is_supported() && self.spec_poll_queries().len() == 0),
    {
        self.is_supported && self.poll_queries.len() == 0
    }

    /// Records that `query` was begun at time `now` for the current draw,
    /// and drops the samples of draws that started more than the maximal
    /// age before `now`.
    pub fn query_begun(&mut self, now: u64, query: Q)
        requires
            old(self).wf(),
            old(self).spec_is_supported(),
            old(self).spec_poll_queries().len() == 0,
        ensures
            final(self).wf(),
            final(self).spec_last_query() == Some((now, query)),
            final(self).spec_poll_queries() == old(self).spec_poll_queries(),
            final(self).spec_samples() == prune_samples(
                old(self).spec_samples(),
                now,
                old(self).spec_max_age(),
            ),
            final(self).spec_max_age() == old(self).spec_max_age(),
            final(self).spec_is_supported() == old(self).spec_is_supported(),
    {
        self.last_query = Some((now, query));
        loop
            invariant
                self.last_query == Some((now, query)),
                self.poll_queries@ == old(self).poll_queries@,
                self.max_age == old(self).max_age,
                self.is_supported == old(self).is_supported,
                self.is_supported,
                self.poll_queries@.len() == 0,
                prune_samples(self.samples@, now, self.max_age) == prune_samples(
                    old(self).samples@,
                    now,
                    old(self).max_age,
                ),
            ensures
                self.last_query == Some((now, query)),
                self.poll_queries@ == old(self).poll_queries@,
                self.max_age == old(self).max_age,
                self.is_supported == old(self).is_supported,
                self.samples@ == prune_samples(old(self).samples@, now, old(self).max_age),
            decreases self.samples@.len(),
        {
            if self.samples.len() == 0 {
                break;
            }
            let time = self.samples[0].0;
            let elapsed = if now >= time {
                now - time
            } else {
                0
            };
            if elapsed > self.max_age {
                assert(self.samples@.drop_first() =~= self.samples@.subrange(
                    1,
                    self.samples@.len() as int,
                ));
                self.samples.pop_front();
            } else {
                break;
            }
        }
    }

    /// Ends the current draw: the query that measured it, if any, is
    /// returned to be ended and is queued for polling with its start time,
    /// the oldest waiting query being dropped if more than
    /// [`MAX_POLL_QUERIES`] wait.
    pub fn end_draw(&mut self) -> (ended: Option<Q>)
        requires
            old(self).wf(),
        ensures
            final(self).wf(),
            ended == (if old(self).spec_is_supported() {
                match old(self).spec_last_query() {
                    Some(l) => Some(l.1),
                    None => None,
                }
            } else {
                None
            }),
            final(self).spec_last_query() is None,
            final(self).spec_poll_queries() == (if ended is Some {
                push_bounded(
                    old(self).spec_poll_queries(),
                    old(self).spec_last_query()->0,
                    MAX_POLL_QUERIES,
                )
            } else {
                old(self).spec_poll_queries()
            }),
            final(self).spec_samples() == old(self).spec_samples(),
            final(self).spec_max_age() == old(self).spec_max_age(),
            final(self).spec_is_supported() == old(self).spec_is_supported(),
    {
        if !self.is_supported {
            return None;
        }
        match self.last_query {
            Some(last) => {
                self.poll_queries.push_back(last);
                if self.poll_queries.len() > MAX_POLL_QUERIES {
                    self.poll_queries.pop_front();
                }
                self.last_query = None;
                Some(last.1)
            },
            None => None,
        }
    }

    /// Whether the current draw is measured by a query.
    pub fn is_measuring(&self) -> (r: bool)
        ensures
            r == self.spec_last_query() is Some,
    {
        self.last_query.is_some()
    }

    /// All queries that wait for their results, oldest first.
    pub fn waiting_queries(&self) -> (r: Vec<Q>)
        ensures
            r@ == self.spec_poll_queries().map_values(|p: (u64, Q)| p.1),
    {
        let mut r: Vec<Q> = Vec::new();
        let mut i: usize = 0;
        while i < self.poll_queries.len()
            invariant
                i <= self.poll_queries@.len(),
                r@ == self.poll_queries@.take(i as int).map_values(|p: (u64, Q)| p.1),
            decreases self.poll_queries@.len() - i,
        {
            r.push(self.poll_queries[i].1);
            assert(r@ =~= self.poll_queries@.take(i + 1).map_values(|p: (u64, Q)| p.1));
            i += 1;
        }
        assert(self.poll_queries@.take(self.poll_queries@.len() as int) =~= self.poll_queries@);
        r
    }

    /// The oldest query that waits for its result, if any.
    pub fn pending_query(&self) -> (q: Option<Q>)
        ensures
            q == (if self.spec_poll_queries().len() > 0 {
                Some(self.spec_poll_queries()[0].1)
            } else {
                None
            }),
    {
        if self.poll_queries.len() > 0 {
            Some(self.poll_queries[0].1)
        } else {
            None
        }
    }

    /// Records the result `nanos` of the oldest waiting query as a sample
    /// of the draw that started at the query's start time; the query is
    /// returned to be deleted.
    pub fn record_sample(&mut self, nanos: u32) -> (done: Q)
        requires
            old(self).wf(),
            old(self).spec_poll_queries().len() > 0,
        ensures
            final(self).wf(),
            done == old(self).spec_poll_queries()[0].1,
            final(self).spec_poll_queries() == old(self).spec_poll_queries().drop_first(),
            final(self).spec_samples() == old(self).spec_samples().push(
                (old(self).spec_poll_queries()[0].0, nanos as u64),
            ),
            final(self).spec_last_query() == old(self).spec_last_query(),
            final(self).spec_max_age() == old(self).spec_max_age(),
            final(self).spec_is_supported() == old(self).spec_is_supported(),
    {
        let (time, query) = self.poll_queries[0];
        self.samples.push_back((time, nanos as u64));
        self.poll_queries.pop_front();
        query
    }

    /// Takes the result `nanos` read for the oldest waiting query while
    /// polling. A zero result is not available yet: polling stops, nothing
    /// changes and `None` is returned. Any other result is recorded as
    /// [`DrawTimer::record_sample`] records it, and the query is returned to
    /// be deleted.
    pub fn poll_result(&mut self, nanos: u32) -> (done: Option<Q>)
        requires
            old(self).wf(),
            old(self).spec_poll_queries().len() > 0,
        ensures
            final(self).wf(),
            done == (if nanos == 0 {
                None
            } else {
                Some(old(self).spec_poll_queries()[0].1)
            }),
            final(self).spec_poll_queries() == (if nanos == 0 {
                old(self).spec_poll_queries()
            } else {
                old(self).spec_poll_queries().drop_first()
            }),
            final(self).spec_samples() == (if nanos == 0 {
                old(self).spec_samples()
            } else {
                old(self).spec_samples().push((old(self).spec_poll_queries()[0].0, nanos as u64))
            }),
            final(self).spec_last_query() == old(self).spec_last_query(),
            final(self).spec_max_age() == old(self).spec_max_age(),
            final(self).spec_is_supported() == old(self).spec_is_supported(),
    {
        if nanos == 0 {
            None
        } else {
            Some(self.record_sample(nanos))
        }
    }

    /// The kept samples: pairs of the time a draw started and the
    /// nanoseconds it took, oldest first.
    pub fn samples(&self) -> (r: &VecDeque<(u64, u64)>)
        ensures
            r@ == self.spec_samples(),
    {
        &self.samples
    }

    /// Statistics over the durations of the kept samples, or `None` if none
    /// is kept.
    pub fn timing_info(&self) -> (info: Option<DrawTimingInfo>)
        ensures
            info == (if self.spec_samples().len() == 0 {
                None
            } else {
                Some(draw_timing_info_of(sample_durations(self.spec_samples())))
            }),
    {
        if self.samples.len() == 0 {
            return None;
        }
        let ghost durations = sample_durations(self.samples@);
        let mut nanos: Vec<u64> = Vec::new();
        let mut i: usize = 0;
        while i < self.samples.len()
            invariant
                durations == sample_durations(self.samples@),
                i <= self.samples@.len(),
                nanos@ == durations.take(i as int),
            decreases self.samples@.len() - i,
        {
            nanos.push(self.samples[i].1);
            assert(nanos@ =~= durations.take(i + 1));
            i += 1;
        }
        assert(nanos@ =~= durations);
        let stats = timing_stats(&nanos);
        Some(
            DrawTimingInfo {
                num_samples: stats.num_samples,
                average: duration_from_nanos(stats.average_nanos),
                min: duration_from_nanos(stats.min_nanos),
                max: duration_from_nanos(stats.max_nanos),
            },
        )
    }
}

/// After a query is begun, every kept sample started at most the maximal
/// age before the begin time, and the kept samples are the most recent ones
/// of those before, in order.
pub proof fn lemma_pruned_samples_are_recent(samples: Seq<(u64, u64)>, now: u64, max_age: u64)
    ensures
        prune_samples(samples, now, max_age).len() > 0 ==> age(
            prune_samples(samples, now, max_age)[0].0,
            now,
        ) <= max_age,
        exists|k: int|
            0 <= k <= samples.len() && #[trigger] samples.skip(k) == prune_samples(
                samples,
                now,
                max_age,
            ),
    decreases samples.len(),
{
    if samples.len() > 0 && age(samples[0].0, now) > max_age {
        lemma_pruned_samples_are_recent(samples.drop_first(), now, max_age);
        let k = choose|k: int|
            0 <= k <= samples.drop_first().len() && #[trigger] samples.drop_first().skip(k)
                == prune_samples(samples.drop_first(), now, max_age);
        assert(samples.skip(k + 1) =~= samples.drop_first().skip(k));
    } else {
        assert(samples.skip(0) =~= samples);
    }
}

} // verus!

