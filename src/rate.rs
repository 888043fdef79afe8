use vstd::prelude::*;

verus! {

/// The state of the two rate controls during one tick.
#[derive(Clone, Copy, Debug, PartialEq, Eq)]
pub struct RateControls {
    pub increase: bool,
    pub decrease: bool,
}

/// One adjustment of the rate: a decrease saturates at zero, then an
/// increase adds one (saturating at the largest value).
pub open spec fn rate_step(rate: int, c: RateControls) -> int {
    let lowered = if c.decrease {
        if rate > 0 {
            rate - 1
        } else {
            0
        }
    } else {
        rate
    };
    if c.increase {
        if lowered < u32::MAX {
            lowered + 1
        } else {
            lowered
        }
    } else {
        lowered
    }
}

/// Whether either control is held, which makes the tick send a request.
pub open spec fn is_active(c: RateControls) -> bool {
    c.increase || c.decrease
}

/// The rate after a sequence of ticks' controls, each applied in turn.
pub open spec fn rate_after(start: int, cs: Seq<RateControls>) -> int
    decreases cs.len(),
{
    if cs.len() == 0 {
        start
    } else {
        rate_step(rate_after(start, cs.drop_last()), cs.last())
    }
}

/// The rate to request for this tick, or `None` when no control is held.
pub fn requested_rate(rate: u32, c: RateControls) -> (r: Option<u32>)
    ensures
        is_active(c) ==> r == Some(rate_step(rate as int, c) as u32),
        !is_active(c) ==> r is None,
{
    if c.increase || c.decrease {
        let mut next = rate;
        if c.decrease {
            next = next.saturating_sub(1);
        }
        if c.increase {
            next = next.saturating_add(1);
        }
        Some(next)
    } else {
        None
    }
}

/// Any sequence of adjustments from a non-negative rate keeps the rate
/// non-negative and within the range of the synchronized value.
pub proof fn lemma_rate_never_negative(start: int, cs: Seq<RateControls>)
    requires
        0 <= start <= u32::MAX,
    ensures
        0 <= rate_after(start, cs) <= u32::MAX,
    decreases cs.len(),
{
    if cs.len() > 0 {
        lemma_rate_never_negative(start, cs.drop_last());
    }
}

/// Holding only "increase" for `n` ticks from rate `start` raises the rate by
/// exactly `n`, as long as it stays in range.
pub proof fn lemma_held_increase(start: int, cs: Seq<RateControls>)
    requires
        0 <= start,
        start + cs.len() <= u32::MAX,
        forall|i: int| 0 <= i < cs.len() ==> cs[i] == (RateControls { increase: true, decrease: false }),
    ensures
        rate_after(start, cs) == start + cs.len(),
    decreases cs.len(),
{
    if cs.len() > 0 {
        lemma_held_increase(start, cs.drop_last());
    }
}

} // verus!
