use vstd::prelude::*;

verus! {

/// Weight divisor of the moving average: the newest sample counts for 1/N.
pub const LATENCY_SMOOTHING: u64 = 4;

/// One update of the moving average: `(prev * (N - 1) + sample) / N`,
/// rounded down.
pub open spec fn smoothed_next(prev: nat, sample: nat) -> nat {
    (prev * 3 + sample) / 4
}

/// The smoothed value after feeding the same sample `n` times.
pub open spec fn smoothed_after(start: nat, sample: nat, n: nat) -> nat
    decreases n,
{
    if n == 0 {
        start
    } else {
        smoothed_next(smoothed_after(start, sample, (n - 1) as nat), sample)
    }
}

/// The smoothed value after feeding every sample of `samples`, in order.
pub open spec fn smoothed_over(start: nat, samples: Seq<nat>) -> nat
    decreases samples.len(),
{
    if samples.len() == 0 {
        start
    } else {
        smoothed_next(smoothed_over(start, samples.drop_last()), samples.last())
    }
}

/// Elapsed time from `stamp` to `now`; a stamp from the future counts as zero.
pub open spec fn elapsed(now: nat, stamp: nat) -> nat {
    if now >= stamp {
        (now - stamp) as nat
    } else {
        0
    }
}

/// Elapsed time between a probe's timestamp and the moment its echo is seen.
pub fn round_trip(now: u64, stamp: u64) -> (r: u64)
    ensures
        r == elapsed(now as nat, stamp as nat),
{
    if now >= stamp {
        now - stamp
    } else {
        0
    }
}

/// A running, smoothed round-trip time.
#[derive(Clone, Copy, Debug, PartialEq, Eq)]
pub struct LatencyAggregator {
    pub smoothed: u64,
}

impl LatencyAggregator {
    /// A fresh aggregator starts at zero.
    pub fn new() -> (r: Self)
        ensures
            r.smoothed == 0,
    {
        LatencyAggregator { smoothed: 0 }
    }

    /// Folds one round-trip sample into the smoothed value.
    pub fn record(&mut self, sample: u64)
        ensures
            final(self).smoothed == smoothed_next(old(self).smoothed as nat, sample as nat),
    {
        let prev = self.smoothed as u128;
        let next = (prev * 3 + sample as u128) / (LATENCY_SMOOTHING as u128);
        proof {
            lemma_next_between(self.smoothed as nat, sample as nat);
        }
        self.smoothed = next as u64;
    }
}

/// The updated value is a convex combination of the previous value and the
/// sample: it lies between the two.
pub proof fn lemma_next_between(prev: nat, sample: nat)
    ensures
        prev <= sample ==> prev <= smoothed_next(prev, sample) <= sample,
        sample <= prev ==> sample <= smoothed_next(prev, sample) <= prev,
{
}

/// One update from an initial value of zero gives a quarter of the sample.
pub proof fn lemma_first_sample(sample: nat)
    ensures
        smoothed_next(0, sample) == sample / 4,
{
}

/// Feeding a constant sample from above reaches it exactly: after `n` updates
/// the excess is at most `start - sample - n`, and it is zero once `n` is at
/// least the initial excess. The value never drops below the sample.
pub proof fn lemma_converges_from_above(start: nat, sample: nat, n: nat)
    requires
        sample <= start,
    ensures
        sample <= smoothed_after(start, sample, n),
        smoothed_after(start, sample, n) - sample <= if n <= start - sample {
            start - sample - n
        } else {
            0int
        },
        n >= start - sample ==> smoothed_after(start, sample, n) == sample,
    decreases n,
{
    if n > 0 {
        lemma_converges_from_above(start, sample, (n - 1) as nat);
    }
}

/// Feeding a constant sample from below climbs towards it and never passes
/// it: after `n` updates the shortfall is at most `max(3, start gap - n)`.
/// Because the average rounds down, a shortfall of up to three time units
/// (one below the divisor) is a fixed point.
pub proof fn lemma_converges_from_below(start: nat, sample: nat, n: nat)
    requires
        start <= sample,
    ensures
        start <= smoothed_after(start, sample, n) <= sample,
        sample - smoothed_after(start, sample, n) <= if n + 3 <= sample - start {
            sample - start - n
        } else {
            3int
        },
    decreases n,
{
    if n > 0 {
        lemma_converges_from_below(start, sample, (n - 1) as nat);
    }
}

} // verus!
