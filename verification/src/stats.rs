//! Cumulative timing statistics over the frames rendered so far.
//!
//! Durations are whole nanoseconds. The aggregate is never reset: every figure
//! covers all frames since the statistics were created.

use vstd::prelude::*;

verus! {

/// A report is due each time the frame count reaches a multiple of this.
pub const REPORT_INTERVAL: u64 = 60;

/// Sum of all samples.
pub open spec fn seq_sum(s: Seq<u64>) -> nat
    decreases s.len(),
{
    if s.len() == 0 {
        0
    } else {
        seq_sum(s.drop_last()) + s.last() as nat
    }
}

/// Smallest sample, or `u64::MAX` when there is none.
pub open spec fn seq_min(s: Seq<u64>) -> u64
    decreases s.len(),
{
    if s.len() == 0 {
        u64::MAX
    } else if s.last() < seq_min(s.drop_last()) {
        s.last()
    } else {
        seq_min(s.drop_last())
    }
}

/// Largest sample, or 0 when there is none.
pub open spec fn seq_max(s: Seq<u64>) -> u64
    decreases s.len(),
{
    if s.len() == 0 {
        0
    } else if s.last() > seq_max(s.drop_last()) {
        s.last()
    } else {
        seq_max(s.drop_last())
    }
}

/// Mean of the samples rounded down to a whole nanosecond, 0 when there is none.
pub open spec fn seq_average(s: Seq<u64>) -> nat {
    if s.len() == 0 {
        0
    } else {
        seq_sum(s) / s.len()
    }
}

/// Whether a report is due once `count` frames have been recorded.
pub open spec fn report_due(count: nat) -> bool {
    count > 0 && count % (REPORT_INTERVAL as nat) == 0
}

/// The sum of `n` samples is at most `n` times the largest sample and at least
/// `n` times the smallest.
pub proof fn lemma_sum_bounds(s: Seq<u64>)
    ensures
        seq_min(s) * s.len() <= seq_sum(s),
        seq_sum(s) <= seq_max(s) * s.len(),
        seq_sum(s) <= u64::MAX * s.len(),
    decreases s.len(),
{
    if s.len() > 0 {
        let t = s.drop_last();
        lemma_sum_bounds(t);
        let n = t.len() as int;
        assert(seq_max(t) * n <= seq_max(s) * n) by (nonlinear_arith)
            requires
                seq_max(t) <= seq_max(s),
                n >= 0,
        ;
        assert(seq_max(s) * (n + 1) == seq_max(s) * n + seq_max(s)) by (nonlinear_arith);
        assert(u64::MAX * (n + 1) == u64::MAX * n + u64::MAX) by (nonlinear_arith);
        assert(seq_min(s) * (n + 1) == seq_min(s) * n + seq_min(s)) by (nonlinear_arith);
        if n > 0 {
            assert(seq_min(s) * n <= seq_min(t) * n) by (nonlinear_arith)
                requires
                    seq_min(s) <= seq_min(t),
                    n >= 0,
            ;
        } else {
            assert(seq_min(s) * n == 0) by (nonlinear_arith)
                requires
                    n == 0,
            ;
        }
    }
}

/// Every sample lies between the smallest and the largest.
pub proof fn lemma_extremes_bound_samples(s: Seq<u64>, i: int)
    requires
        0 <= i < s.len(),
    ensures
        seq_min(s) <= s[i] <= seq_max(s),
    decreases s.len(),
{
    if i < s.len() - 1 {
        lemma_extremes_bound_samples(s.drop_last(), i);
    }
}

/// With at least one sample, the average lies between the smallest and the
/// largest sample.
pub proof fn lemma_average_between_extremes(s: Seq<u64>)
    requires
        s.len() > 0,
    ensures
        seq_min(s) <= seq_average(s) <= seq_max(s),
{
    lemma_sum_bounds(s);
    let n = s.len() as int;
    let total = seq_sum(s) as int;
    let lo = seq_min(s) as int;
    let hi = seq_max(s) as int;
    assert(lo <= total / n) by (nonlinear_arith)
        requires
            n > 0,
            lo * n <= total,
    ;
    assert(total / n <= hi) by (nonlinear_arith)
        requires
            n > 0,
            0 <= total <= hi * n,
    ;
}

/// What a periodic report shows.
#[derive(Clone, Copy, Debug, PartialEq, Eq, Structural)]
pub struct FrameReport {
    pub min_time: u64,
    pub max_time: u64,
    pub average_time: u64,
    pub frame_count: u64,
}

/// Running minimum, maximum, sum and count of frame durations.
pub struct FrameStats {
    min_time: u64,
    max_time: u64,
    total_time: u128,
    frame_count: u64,
    samples: Ghost<Seq<u64>>,
}

impl View for FrameStats {
    type V = Seq<u64>;

    /// The durations recorded so far, oldest first.
    closed spec fn view(&self) -> Seq<u64> {
        self.samples@
    }
}

impl FrameStats {
    #[verifier::type_invariant]
    spec fn aggregates_match_samples(self) -> bool {
        &&& self.frame_count == self.samples@.len()
        &&& self.total_time == seq_sum(self.samples@)
        &&& self.min_time == seq_min(self.samples@)
        &&& self.max_time == seq_max(self.samples@)
    }

    /// Statistics with no frame recorded.
    pub fn new() -> (stats: FrameStats)
        ensures
            stats@ == Seq::<u64>::empty(),
    {
        FrameStats {
            min_time: u64::MAX,
            max_time: 0,
            total_time: 0,
            frame_count: 0,
            samples: Ghost(Seq::empty()),
        }
    }

    /// Records the duration of one more frame.
    pub fn update(&mut self, frame_time: u64)
        requires
            old(self)@.len() < u64::MAX,
        ensures
            final(self)@ == old(self)@.push(frame_time),
    {
        proof {
            use_type_invariant(&*self);
            lemma_sum_bounds(self.samples@);
            assert(u64::MAX * self.samples@.len() + u64::MAX <= u128::MAX) by (nonlinear_arith)
                requires
                    self.samples@.len() < u64::MAX,
            ;
        }
        let ghost extended = self.samples@.push(frame_time);
        assert(extended.drop_last() =~= self.samples@);
        let min_time: u64 = if frame_time < self.min_time {
            frame_time
        } else {
            self.min_time
        };
        let max_time: u64 = if frame_time > self.max_time {
            frame_time
        } else {
            self.max_time
        };
        *self = FrameStats {
            min_time,
            max_time,
            total_time: self.total_time + frame_time as u128,
            frame_count: self.frame_count + 1,
            samples: Ghost(extended),
        };
    }

    /// Shortest frame so far, `u64::MAX` before the first frame.
    pub fn min_time(&self) -> (t: u64)
        ensures
            t == seq_min(self@),
    {
        proof {
            use_type_invariant(self);
        }
        self.min_time
    }

    /// Longest frame so far, 0 before the first frame.
    pub fn max_time(&self) -> (t: u64)
        ensures
            t == seq_max(self@),
    {
        proof {
            use_type_invariant(self);
        }
        self.max_time
    }

    /// Sum of all frame durations.
    pub fn total_time(&self) -> (t: u128)
        ensures
            t == seq_sum(self@),
    {
        proof {
            use_type_invariant(self);
        }
        self.total_time
    }

    /// Number of frames recorded.
    pub fn frame_count(&self) -> (n: u64)
        ensures
            n == self@.len(),
    {
        proof {
            use_type_invariant(self);
        }
        self.frame_count
    }

    /// Mean frame duration rounded down, 0 before the first frame.
    pub fn average_time(&self) -> (t: u64)
        ensures
            t == seq_average(self@),
    {
        proof {
            use_type_invariant(self);
        }
        if self.frame_count == 0 {
            0
        } else {
            proof {
                lemma_average_between_extremes(self.samples@);
            }
            let mean: u128 = self.total_time / (self.frame_count as u128);
            mean as u64
        }
    }

    /// Whether the frame just recorded completes a reporting interval.
    pub fn report_is_due(&self) -> (due: bool)
        ensures
            due == report_due(self@.len()),
    {
        proof {
            use_type_invariant(self);
        }
        self.frame_count > 0 && self.frame_count % REPORT_INTERVAL == 0
    }

    /// The figures of a report: minimum, maximum, average and count.
    pub fn display_stats(&self) -> (report: FrameReport)
        ensures
            report.min_time == seq_min(self@),
            report.max_time == seq_max(self@),
            report.average_time == seq_average(self@),
            report.frame_count == self@.len(),
    {
        FrameReport {
            min_time: self.min_time(),
            max_time: self.max_time(),
            average_time: self.average_time(),
            frame_count: self.frame_count(),
        }
    }
}

} // verus!
