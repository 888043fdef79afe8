use vstd::prelude::*;
use crate::spawn::{BurstQueue, plan_tick, tick_spawn_count, pending_after_tick};
use crate::ttl::expired;
use crate::world::{Ball, Marker, surviving, expired_ids, fresh_balls};

verus! {

/// Latency shown for a client that has not reported yet.
pub const UNKNOWN_LATENCY: u64 = u64::MAX;

/// A connected client and the latency it last reported.
#[derive(Clone, Copy, Debug, PartialEq, Eq)]
pub struct PlayerLatency {
    pub player: u128,
    pub latency: u64,
}

/// Whether `player` has an entry in `ls`.
pub open spec fn has_player(ls: Seq<PlayerLatency>, player: u128) -> bool {
    exists|i: int| 0 <= i < ls.len() && ls[i].player == player
}

/// `ls` with every entry of `player` set to `latency`.
pub open spec fn with_latency(ls: Seq<PlayerLatency>, player: u128, latency: u64) -> Seq<
    PlayerLatency,
> {
    ls.map_values(
        |e: PlayerLatency|
            if e.player == player {
                PlayerLatency { player, latency }
            } else {
                e
            },
    )
}

/// The server's session state: the synchronized spawn rate, the burst
/// queue, the simulated objects, the echo markers, the per-client latencies,
/// and the next free object id.
#[derive(Clone, Debug)]
pub struct Server {
    pub rate: u32,
    pub burst: BurstQueue,
    pub balls: Vec<Ball>,
    pub markers: Vec<Marker>,
    pub latencies: Vec<PlayerLatency>,
    pub next_id: u64,
}

impl Server {
    /// A session at startup: rate zero, nothing queued, no objects.
    pub fn new() -> (r: Self)
        ensures
            r.rate == 0,
            r.burst.pending == 0,
            r.balls@.len() == 0,
            r.markers@.len() == 0,
            r.latencies@.len() == 0,
            r.next_id == 0,
    {
        Server {
            rate: 0,
            burst: BurstQueue::new(),
            balls: Vec::new(),
            markers: Vec::new(),
            latencies: Vec::new(),
            next_id: 0,
        }
    }

    /// A "set rate" request: the requested value overwrites the shared rate.
    pub fn set_rate(&mut self, rate: u32)
        ensures
            *final(self) == (Server { rate, ..*old(self) }),
    {
        self.rate = rate;
    }

    /// A burst request: `count` more objects are queued.
    pub fn request_burst(&mut self, count: u32)
        ensures
            final(self).burst.pending == if old(self).burst.pending + count <= u64::MAX {
                old(self).burst.pending + count
            } else {
                u64::MAX as int
            },
            *final(self) == (Server { burst: final(self).burst, ..*old(self) }),
    {
        self.burst.request(count);
    }

    /// A probe from `sender` carrying `timestamp`: one marker is attached to
    /// the sender. A probe whose sender is unknown is discarded.
    pub fn on_probe(&mut self, sender: Option<u128>, timestamp: u64)
        requires
            old(self).next_id < u64::MAX,
        ensures
            sender is None ==> *final(self) == *old(self),
            sender matches Some(p) ==> final(self).markers@ == old(self).markers@.push(
                Marker { id: old(self).next_id as u128, parent: p, timestamp },
            ) && final(self).next_id == old(self).next_id + 1 && *final(self) == (Server {
                markers: final(self).markers,
                next_id: final(self).next_id,
                ..*old(self)
            }),
    {
        if let Some(p) = sender {
            let id = self.next_id;
            self.markers.push(Marker { id: id as u128, parent: p, timestamp });
            self.next_id = id + 1;
        }
    }

    /// A client joins: it gets an entry with an unknown latency, unless it
    /// has one already.
    pub fn join_player(&mut self, player: u128)
        ensures
            has_player(old(self).latencies@, player) ==> *final(self) == *old(self),
            !has_player(old(self).latencies@, player) ==> final(self).latencies@
                == old(self).latencies@.push(PlayerLatency { player, latency: UNKNOWN_LATENCY })
                && *final(self) == (Server { latencies: final(self).latencies, ..*old(self) }),
    {
        let mut i: usize = 0;
        while i < self.latencies.len()
            invariant
                i <= self.latencies@.len(),
                forall|j: int| 0 <= j < i ==> self.latencies@[j].player != player,
            decreases self.latencies@.len() - i,
        {
            if self.latencies[i].player == player {
                return;
            }
            i = i + 1;
        }
        self.latencies.push(PlayerLatency { player, latency: UNKNOWN_LATENCY });
    }

    /// A latency report from `sender`: stored against the sender. A report
    /// from an unknown sender is discarded.
    pub fn report_latency(&mut self, sender: Option<u128>, latency: u64)
        ensures
            sender is None ==> *final(self) == *old(self),
            sender matches Some(p) ==> final(self).latencies@ == with_latency(
                old(self).latencies@,
                p,
                latency,
            ) && *final(self) == (Server { latencies: final(self).latencies, ..*old(self) }),
    {
        if let Some(p) = sender {
            let mut i: usize = 0;
            while i < self.latencies.len()
                invariant
                    i <= self.latencies@.len(),
                    self.latencies@.len() == old(self).latencies@.len(),
                    self.rate == old(self).rate,
                    self.burst == old(self).burst,
                    self.balls == old(self).balls,
                    self.markers == old(self).markers,
                    self.next_id == old(self).next_id,
                    forall|j: int|
                        0 <= j < i ==> self.latencies@[j] == with_latency(
                            old(self).latencies@,
                            p,
                            latency,
                        )[j],
                    forall|j: int|
                        i <= j < self.latencies@.len() ==> self.latencies@[j]
                            == old(self).latencies@[j],
                decreases self.latencies@.len() - i,
            {
                if self.latencies[i].player == p {
                    self.latencies.set(i, PlayerLatency { player: p, latency });
                }
                i = i + 1;
            }
            assert(self.latencies@ =~= with_latency(old(self).latencies@, p, latency));
        }
    }

    /// The spawn pass of one tick at `now`: creates `rate` tagged objects,
    /// plus one more drained from the burst queue while it is not empty.
    /// Returns how many were created.
    pub fn spawn_tick(&mut self, now: u64) -> (n: u64)
        requires
            old(self).next_id + old(self).rate + 1 <= u64::MAX,
        ensures
            n == tick_spawn_count(old(self).rate as nat, old(self).burst.pending as nat),
            final(self).burst.pending == pending_after_tick(old(self).burst.pending as nat),
            final(self).balls@ == old(self).balls@ + fresh_balls(
                old(self).next_id as int,
                n as int,
                now,
            ),
            final(self).next_id == old(self).next_id + n,
            final(self).rate == old(self).rate,
            final(self).markers == old(self).markers,
            final(self).latencies == old(self).latencies,
    {
        let n = plan_tick(self.rate, &mut self.burst);
        let ghost start = self.balls@;
        let first = self.next_id;
        let mut k: u64 = 0;
        while k < n
            invariant
                k <= n,
                first == old(self).next_id,
                first + n <= u64::MAX,
                self.next_id == first + k,
                self.balls@ == start + fresh_balls(first as int, k as int, now),
                self.rate == old(self).rate,
                self.burst.pending == pending_after_tick(old(self).burst.pending as nat),
                self.markers == old(self).markers,
                self.latencies == old(self).latencies,
            decreases n - k,
        {
            self.balls.push(Ball { id: self.next_id as u128, created: Some(now) });
            self.next_id = self.next_id + 1;
            k = k + 1;
            assert(self.balls@ =~= start + fresh_balls(first as int, k as int, now));
        }
        n
    }

    /// The reaper pass of one tick at `now`: removes every tagged object
    /// whose age exceeds the threshold and returns their ids.
    pub fn reap_tick(&mut self, now: u64) -> (removed: Vec<u128>)
        ensures
            final(self).balls@ == surviving(old(self).balls@, now as int),
            removed@ == expired_ids(old(self).balls@, now as int),
            *final(self) == (Server { balls: final(self).balls, ..*old(self) }),
    {
        let mut kept: Vec<Ball> = Vec::new();
        let mut removed: Vec<u128> = Vec::new();
        let mut i: usize = 0;
        while i < self.balls.len()
            invariant
                i <= self.balls@.len(),
                self.balls == old(self).balls,
                kept@ == surviving(self.balls@.take(i as int), now as int),
                removed@ == expired_ids(self.balls@.take(i as int), now as int),
            decreases self.balls@.len() - i,
        {
            let b = self.balls[i];
            proof {
                assert(self.balls@.take(i + 1).drop_last() =~= self.balls@.take(i as int));
            }
            let gone = match b.created {
                Some(t) => expired(now, t),
                None => false,
            };
            if gone {
                removed.push(b.id);
            } else {
                kept.push(b);
            }
            i = i + 1;
        }
        proof {
            assert(self.balls@.take(i as int) =~= self.balls@);
        }
        self.balls = kept;
        removed
    }
}

} // verus!
