//! # Network Performance Monitor
//!
//! The monitor keeps rolling windows of recent samples (throughput,
//! latency, packet loss) and classifies the network condition from their
//! averages. This module holds the condition classes and the window of
//! throughput samples with its integer statistics; the timers and the
//! latency and loss averages live in the application.

use std::collections::VecDeque;

use vstd::prelude::*;

verus! {

/// Number of samples kept for rolling averages.
pub const SAMPLE_WINDOW: usize = 60;

/// How often metrics are updated (milliseconds).
pub const UPDATE_INTERVAL_MS: u64 = 1000;

/// Number of samples at each end of the window compared for the trend.
pub const TREND_SPAN: usize = 5;

/// Network condition classification based on metrics.
#[derive(Debug, Clone, Copy, PartialEq, Eq, Structural)]
pub enum NetworkCondition {
    /// High throughput, low latency, no loss.
    Excellent,
    /// Decent throughput, moderate latency.
    Good,
    /// Reduced throughput, some packet loss.
    Fair,
    /// High latency, significant packet loss.
    Poor,
    /// Very high loss, connection at risk.
    Critical,
}

/// The sum of a sequence of samples.
pub open spec fn seq_sum(s: Seq<u64>) -> int
    decreases s.len(),
{
    if s.len() == 0 {
        0
    } else {
        seq_sum(s.drop_last()) + s.last()
    }
}

/// A sum of samples is at most the number of samples times the largest
/// sample value.
pub proof fn lemma_seq_sum_bound(s: Seq<u64>)
    ensures
        0 <= seq_sum(s) <= s.len() * (u64::MAX as int),
    decreases s.len(),
{
    if s.len() > 0 {
        lemma_seq_sum_bound(s.drop_last());
        assert(s.drop_last().len() * (u64::MAX as int) + u64::MAX == s.len() * (u64::MAX as int))
            by (nonlinear_arith)
            requires
                s.drop_last().len() + 1 == s.len(),
        ;
    }
}

/// The window after recording one sample: the oldest sample leaves once
/// the window is full.
pub open spec fn window_after(old: Seq<u64>, sample: u64) -> Seq<u64> {
    if old.len() >= SAMPLE_WINDOW {
        old.drop_first().push(sample)
    } else {
        old.push(sample)
    }
}

/// The last `TREND_SPAN` samples (all of them when there are fewer).
pub open spec fn recent_samples(s: Seq<u64>) -> Seq<u64> {
    if s.len() <= TREND_SPAN {
        s
    } else {
        s.skip(s.len() - TREND_SPAN)
    }
}

/// The first `TREND_SPAN` samples (all of them when there are fewer).
pub open spec fn older_samples(s: Seq<u64>) -> Seq<u64> {
    if s.len() <= TREND_SPAN {
        s
    } else {
        s.take(TREND_SPAN as int)
    }
}

/// A rolling window of the most recent throughput samples (bytes per
/// second), at most `SAMPLE_WINDOW` of them, oldest first.
pub struct ThroughputHistory {
    samples: VecDeque<u64>,
}

impl ThroughputHistory {
    #[verifier::type_invariant]
    spec fn bounded(&self) -> bool {
        self.samples@.len() <= SAMPLE_WINDOW
    }

    /// The samples held, oldest first.
    pub closed spec fn samples(&self) -> Seq<u64> {
        self.samples@
    }

    /// An empty window.
    pub fn new() -> (h: Self)
        ensures
            h.samples() == Seq::<u64>::empty(),
    {
        ThroughputHistory { samples: VecDeque::with_capacity(SAMPLE_WINDOW) }
    }

    /// Number of samples held.
    pub fn len(&self) -> (n: usize)
        ensures
            n == self.samples().len(),
            n <= SAMPLE_WINDOW,
    {
        proof {
            use_type_invariant(self);
        }
        self.samples.len()
    }

    /// Record a sample; the oldest one leaves when the window is full.
    pub fn record(&mut self, sample: u64)
        ensures
            final(self).samples() == window_after(old(self).samples(), sample),
            final(self).samples().len() <= SAMPLE_WINDOW,
    {
        proof {
            use_type_invariant(&*self);
        }
        let mut samples = VecDeque::new();
        std::mem::swap(&mut samples, &mut self.samples);
        if samples.len() >= SAMPLE_WINDOW {
            samples.pop_front();
        }
        samples.push_back(sample);
        self.samples = samples;
    }

    /// The sum of the samples at positions `start..end`.
    fn sum_range(&self, start: usize, end: usize) -> (total: u128)
        requires
            start <= end <= self.samples().len(),
        ensures
            total == seq_sum(self.samples().subrange(start as int, end as int)),
    {
        let mut total: u128 = 0;
        let mut i = start;
        while i < end
            invariant
                start <= i <= end <= self.samples@.len(),
                total == seq_sum(self.samples@.subrange(start as int, i as int)),
            decreases end - i,
        {
            proof {
                let s = self.samples@.subrange(start as int, i + 1);
                assert(s.drop_last() =~= self.samples@.subrange(start as int, i as int));
                lemma_seq_sum_bound(s.drop_last());
                assert((i - start) * (u64::MAX as int) + u64::MAX < u128::MAX) by (nonlinear_arith)
                    requires
                        i - start < 0x1_0000_0000_0000_0000,
                ;
            }
            total = total + self.samples[i] as u128;
            i = i + 1;
        }
        total
    }

    /// The average of the samples; 0 for an empty window.
    pub fn average(&self) -> (avg: u64)
        ensures
            self.samples().len() == 0 ==> avg == 0,
            self.samples().len() > 0 ==> avg == seq_sum(self.samples()) / (
            self.samples().len() as int),
    {
        proof {
            use_type_invariant(self);
        }
        let n = self.samples.len();
        if n == 0 {
            return 0;
        }
        let total = self.sum_range(0, n);
        proof {
            assert(self.samples@.subrange(0, n as int) =~= self.samples@);
            lemma_seq_sum_bound(self.samples@);
            let t = seq_sum(self.samples@);
            assert(t / (n as int) <= u64::MAX) by (nonlinear_arith)
                requires
                    0 <= t <= n * (u64::MAX as int),
                    n > 0,
            ;
        }
        (total / (n as u128)) as u64
    }

    /// The sums of the newest and of the oldest `TREND_SPAN` samples, from
    /// which the throughput trend is computed.
    pub fn trend_sums(&self) -> (sums: (u128, u128))
        ensures
            sums.0 == seq_sum(recent_samples(self.samples())),
            sums.1 == seq_sum(older_samples(self.samples())),
    {
        proof {
            use_type_invariant(self);
        }
        let n = self.samples.len();
        let k = if n < TREND_SPAN {
            n
        } else {
            TREND_SPAN
        };
        let recent = self.sum_range(n - k, n);
        let older = self.sum_range(0, k);
        proof {
            assert(self.samples@.subrange((n - k) as int, n as int) =~= recent_samples(
                self.samples@,
            ));
            assert(self.samples@.subrange(0, k as int) =~= older_samples(self.samples@));
        }
        (recent, older)
    }
}

} // verus!
