use vstd::prelude::*;
use crate::latency::{LatencyAggregator, round_trip, smoothed_over};
use crate::rate::{RateControls, requested_rate, rate_step, is_active};
use crate::spawn::BURST_SIZE;
use crate::world::{
    Marker, owned, others, marker_ids, marker_samples, lemma_owned_push, lemma_others_own_nothing,
    lemma_others_when_none_owned,
};

verus! {

/// Ticks between two probes.
pub const TICKS_PER_PROBE: u64 = 10;

/// Ticks between two latency reports.
pub const TICKS_PER_REPORT: u64 = 60;

/// What one client tick asks to be sent to the server.
#[derive(Clone, Copy, Debug, PartialEq, Eq)]
pub struct TickMessages {
    /// A reliable "set rate" request with the new rate.
    pub set_rate: Option<u32>,
    /// A reliable burst request with the number of objects.
    pub burst: Option<u32>,
    /// An unreliable probe with the current time.
    pub probe: Option<u64>,
    /// A reliable latency report with the smoothed latency.
    pub report: Option<u64>,
}

/// The client's local state: its own id, the tick counter, its cached copy
/// of the shared rate, and its smoothed latency.
#[derive(Clone, Copy, Debug, PartialEq, Eq)]
pub struct Client {
    pub player: u128,
    pub tick_no: u64,
    pub rate: u32,
    pub latency: LatencyAggregator,
}

/// The tick counter after one tick; it wraps at the largest value.
pub open spec fn next_tick_no(t: u64) -> u64 {
    if t < u64::MAX {
        (t + 1) as u64
    } else {
        0
    }
}

impl Client {
    /// A client at startup: tick zero, rate zero, latency zero.
    pub fn new(player: u128) -> (r: Self)
        ensures
            r.player == player,
            r.tick_no == 0,
            r.rate == 0,
            r.latency.smoothed == 0,
    {
        Client { player, tick_no: 0, rate: 0, latency: LatencyAggregator::new() }
    }

    /// Takes the shared rate as the server last published it.
    pub fn observe_rate(&mut self, rate: u32)
        ensures
            *final(self) == (Client { rate, ..*old(self) }),
    {
        self.rate = rate;
    }

    /// One input tick at `now`. While a rate control is held, the cached
    /// rate is adjusted and a "set rate" request carries it; the burst
    /// control asks for a burst; every `TICKS_PER_PROBE` ticks a probe
    /// carries `now`; every `TICKS_PER_REPORT` ticks the smoothed latency is
    /// reported.
    pub fn on_tick(&mut self, controls: RateControls, burst: bool, now: u64) -> (m: TickMessages)
        ensures
            is_active(controls) ==> m.set_rate == Some(
                rate_step(old(self).rate as int, controls) as u32,
            ) && final(self).rate == rate_step(old(self).rate as int, controls),
            !is_active(controls) ==> m.set_rate is None && final(self).rate == old(self).rate,
            m.burst == (if burst {
                Some(BURST_SIZE)
            } else {
                None
            }),
            m.probe == (if old(self).tick_no % TICKS_PER_PROBE == 0 {
                Some(now)
            } else {
                None
            }),
            m.report == (if old(self).tick_no % TICKS_PER_REPORT == 0 {
                Some(old(self).latency.smoothed)
            } else {
                None
            }),
            final(self).tick_no == next_tick_no(old(self).tick_no),
            final(self).player == old(self).player,
            final(self).latency == old(self).latency,
    {
        let set_rate = requested_rate(self.rate, controls);
        if let Some(r) = set_rate {
            self.rate = r;
        }
        let burst = if burst {
            Some(BURST_SIZE)
        } else {
            None
        };
        let probe = if self.tick_no % TICKS_PER_PROBE == 0 {
            Some(now)
        } else {
            None
        };
        let report = if self.tick_no % TICKS_PER_REPORT == 0 {
            Some(self.latency.smoothed)
        } else {
            None
        };
        self.tick_no = if self.tick_no < u64::MAX {
            self.tick_no + 1
        } else {
            0
        };
        TickMessages { set_rate, burst, probe, report }
    }

    /// The consumption pass at `now`: every marker attached to this client
    /// yields one round-trip sample, in order, and is removed from
    /// `markers`; the others stay. Returns the ids of the removed markers.
    pub fn consume_markers(&mut self, markers: &mut Vec<Marker>, now: u64) -> (removed: Vec<u128>)
        ensures
            final(markers)@ == others(old(markers)@, old(self).player),
            removed@ == marker_ids(owned(old(markers)@, old(self).player)),
            final(self).latency.smoothed == smoothed_over(
                old(self).latency.smoothed as nat,
                marker_samples(owned(old(markers)@, old(self).player), now),
            ),
            final(self).player == old(self).player,
            final(self).tick_no == old(self).tick_no,
            final(self).rate == old(self).rate,
    {
        let ghost start = self.latency.smoothed as nat;
        let ghost ms = markers@;
        let mut kept: Vec<Marker> = Vec::new();
        let mut removed: Vec<u128> = Vec::new();
        let mut i: usize = 0;
        while i < markers.len()
            invariant
                i <= ms.len(),
                markers@ == ms,
                self.player == old(self).player,
                self.tick_no == old(self).tick_no,
                self.rate == old(self).rate,
                kept@ == others(ms.take(i as int), self.player),
                removed@ == marker_ids(owned(ms.take(i as int), self.player)),
                self.latency.smoothed == smoothed_over(
                    start,
                    marker_samples(owned(ms.take(i as int), self.player), now),
                ),
            decreases ms.len() - i,
        {
            let m = markers[i];
            proof {
                assert(ms.take(i + 1).drop_last() =~= ms.take(i as int));
            }
            if m.parent == self.player {
                let ghost before = owned(ms.take(i as int), self.player);
                self.latency.record(round_trip(now, m.timestamp));
                removed.push(m.id);
                proof {
                    let after = before.push(m);
                    assert(marker_ids(after) =~= marker_ids(before).push(m.id));
                    assert(marker_samples(after, now).drop_last() =~= marker_samples(before, now));
                }
            } else {
                kept.push(m);
            }
            i = i + 1;
        }
        proof {
            assert(ms.take(i as int) =~= ms);
        }
        *markers = kept;
        removed
    }
}

/// Each probe that reaches the server gives its sender exactly one marker;
/// one consumption pass takes every marker the client owns, and a second
/// pass over what is left finds none, records no sample and removes nothing.
pub proof fn lemma_marker_exactly_once(ms: Seq<Marker>, m: Marker, player: u128, start: nat, now: u64)
    requires
        m.parent == player,
    ensures
        owned(ms.push(m), player) == owned(ms, player).push(m),
        owned(others(ms.push(m), player), player).len() == 0,
        others(others(ms.push(m), player), player) == others(ms.push(m), player),
        smoothed_over(start, marker_samples(owned(others(ms.push(m), player), player), now))
            == start,
{
    lemma_owned_push(ms, m, player);
    lemma_others_own_nothing(ms.push(m), player);
    lemma_others_when_none_owned(others(ms.push(m), player), player);
    assert(marker_samples(owned(others(ms.push(m), player), player), now).len() == 0);
}

/// A probe that never arrives leaves no marker, so a consumption pass
/// records no sample and changes no marker.
pub proof fn lemma_lost_probe(ms: Seq<Marker>, player: u128, start: nat, now: u64)
    requires
        owned(ms, player).len() == 0,
    ensures
        others(ms, player) == ms,
        smoothed_over(start, marker_samples(owned(ms, player), now)) == start,
{
    lemma_others_when_none_owned(ms, player);
    assert(marker_samples(owned(ms, player), now).len() == 0);
}

} // verus!
