use vstd::prelude::*;

verus! {

/// Objects requested at once by the burst control.
pub const BURST_SIZE: u32 = 100;

/// Objects a tick creates: `rate` of them, plus one while a burst is pending.
pub open spec fn tick_spawn_count(rate: nat, pending: nat) -> nat {
    rate + if pending > 0 {
        1nat
    } else {
        0nat
    }
}

/// Pending burst objects left after one tick.
pub open spec fn pending_after_tick(pending: nat) -> nat {
    if pending > 0 {
        (pending - 1) as nat
    } else {
        0
    }
}

/// Pending burst objects after `n` ticks.
pub open spec fn pending_after(pending: nat, n: nat) -> nat
    decreases n,
{
    if n == 0 {
        pending
    } else {
        pending_after_tick(pending_after(pending, (n - 1) as nat))
    }
}

/// Objects created over `n` ticks at a fixed rate, starting with `pending`
/// burst objects queued.
pub open spec fn spawned_over(rate: nat, pending: nat, n: nat) -> nat
    decreases n,
{
    if n == 0 {
        0
    } else {
        spawned_over(rate, pending, (n - 1) as nat) + tick_spawn_count(
            rate,
            pending_after(pending, (n - 1) as nat),
        )
    }
}

/// The server's queue of objects still owed by burst requests.
#[derive(Clone, Copy, Debug, PartialEq, Eq)]
pub struct BurstQueue {
    pub pending: u64,
}

impl BurstQueue {
    /// An empty queue.
    pub fn new() -> (r: Self)
        ensures
            r.pending == 0,
    {
        BurstQueue { pending: 0 }
    }

    /// Adds `count` objects to the queue (saturating at the largest count).
    pub fn request(&mut self, count: u32)
        ensures
            final(self).pending == if old(self).pending + count <= u64::MAX {
                old(self).pending + count
            } else {
                u64::MAX as int
            },
    {
        self.pending = self.pending.saturating_add(count as u64);
    }

    /// Takes one object off the queue if any is pending; tells whether it did.
    pub fn take_one(&mut self) -> (r: bool)
        ensures
            r == (old(self).pending > 0),
            final(self).pending == pending_after_tick(old(self).pending as nat),
    {
        if self.pending > 0 {
            self.pending = self.pending - 1;
            true
        } else {
            false
        }
    }
}

/// Decides how many objects this tick creates: `rate`, plus one drained from
/// the burst queue if it is not empty.
pub fn plan_tick(rate: u32, queue: &mut BurstQueue) -> (n: u64)
    ensures
        n == tick_spawn_count(rate as nat, old(queue).pending as nat),
        final(queue).pending == pending_after_tick(old(queue).pending as nat),
{
    let extra = queue.take_one();
    if extra {
        rate as u64 + 1
    } else {
        rate as u64
    }
}

/// A burst of `p` objects at rate zero is drained one object per tick: after
/// `n <= p` ticks exactly `n` objects were created and `p - n` are pending,
/// so the queue is empty exactly after the `p`-th tick.
pub proof fn lemma_burst_drain(p: nat, n: nat)
    requires
        n <= p,
    ensures
        spawned_over(0, p, n) == n,
        pending_after(p, n) == p - n,
        pending_after(p, n) == 0 <==> n == p,
    decreases n,
{
    if n > 0 {
        lemma_burst_drain(p, (n - 1) as nat);
    }
}

/// Each tick of a drain creates exactly one object while the queue is not
/// empty, and none once it is.
pub proof fn lemma_burst_one_per_tick(p: nat, n: nat)
    ensures
        tick_spawn_count(0, pending_after(p, n)) == if n < p {
            1nat
        } else {
            0nat
        },
    decreases n,
{
    if n > 0 {
        lemma_burst_one_per_tick(p, (n - 1) as nat);
        lemma_pending_after_value(p, n);
    }
}

/// The queue after `n` ticks holds `max(p - n, 0)`.
pub proof fn lemma_pending_after_value(p: nat, n: nat)
    ensures
        pending_after(p, n) == if n <= p {
            (p - n) as nat
        } else {
            0nat
        },
    decreases n,
{
    if n > 0 {
        lemma_pending_after_value(p, (n - 1) as nat);
    }
}

} // verus!
