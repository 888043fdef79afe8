use vstd::prelude::*;
use crate::latency::elapsed;
use crate::ttl::is_expired;

verus! {

/// A simulated object. `created` holds its creation time when it is managed
/// by the reaper, and is `None` for an object that lives forever.
#[derive(Clone, Copy, Debug, PartialEq, Eq)]
pub struct Ball {
    pub id: u128,
    pub created: Option<u64>,
}

/// An echo marker: the server's mirror of one probe, attached to the client
/// that sent it and carrying the probe's timestamp.
#[derive(Clone, Copy, Debug, PartialEq, Eq)]
pub struct Marker {
    pub id: u128,
    pub parent: u128,
    pub timestamp: u64,
}

/// Whether the reaper retires `b` at time `now`.
pub open spec fn ball_expired(b: Ball, now: int) -> bool {
    match b.created {
        Some(t) => is_expired(now, t as int),
        None => false,
    }
}

/// The objects of `bs` that survive a reaper pass at `now`, in order.
pub open spec fn surviving(bs: Seq<Ball>, now: int) -> Seq<Ball>
    decreases bs.len(),
{
    if bs.len() == 0 {
        seq![]
    } else if ball_expired(bs.last(), now) {
        surviving(bs.drop_last(), now)
    } else {
        surviving(bs.drop_last(), now).push(bs.last())
    }
}

/// The ids of the objects of `bs` that a reaper pass at `now` retires, in order.
pub open spec fn expired_ids(bs: Seq<Ball>, now: int) -> Seq<u128>
    decreases bs.len(),
{
    if bs.len() == 0 {
        seq![]
    } else if ball_expired(bs.last(), now) {
        expired_ids(bs.drop_last(), now).push(bs.last().id)
    } else {
        expired_ids(bs.drop_last(), now)
    }
}

/// `n` fresh tagged objects created at `now`, with ids counting up from `first`.
pub open spec fn fresh_balls(first: int, n: int, now: u64) -> Seq<Ball> {
    Seq::new(n as nat, |i: int| Ball { id: (first + i) as u128, created: Some(now) })
}

/// The markers of `ms` attached to `player`, in order.
pub open spec fn owned(ms: Seq<Marker>, player: u128) -> Seq<Marker>
    decreases ms.len(),
{
    if ms.len() == 0 {
        seq![]
    } else if ms.last().parent == player {
        owned(ms.drop_last(), player).push(ms.last())
    } else {
        owned(ms.drop_last(), player)
    }
}

/// The markers of `ms` attached to anyone but `player`, in order.
pub open spec fn others(ms: Seq<Marker>, player: u128) -> Seq<Marker>
    decreases ms.len(),
{
    if ms.len() == 0 {
        seq![]
    } else if ms.last().parent == player {
        others(ms.drop_last(), player)
    } else {
        others(ms.drop_last(), player).push(ms.last())
    }
}

/// The ids of a sequence of markers.
pub open spec fn marker_ids(ms: Seq<Marker>) -> Seq<u128> {
    ms.map_values(|m: Marker| m.id)
}

/// The round-trip samples that a sequence of markers yields at `now`.
pub open spec fn marker_samples(ms: Seq<Marker>, now: u64) -> Seq<nat> {
    ms.map_values(|m: Marker| elapsed(now as nat, m.timestamp as nat))
}

/// Removing a player's markers leaves none of them behind, so a second
/// consumption pass finds nothing.
pub proof fn lemma_others_own_nothing(ms: Seq<Marker>, player: u128)
    ensures
        owned(others(ms, player), player) == Seq::<Marker>::empty(),
    decreases ms.len(),
{
    if ms.len() > 0 {
        let rest = others(ms.drop_last(), player);
        lemma_others_own_nothing(ms.drop_last(), player);
        if ms.last().parent != player {
            assert(rest.push(ms.last()).drop_last() =~= rest);
        }
    }
}

/// Where a player owns no marker, removing its markers changes nothing.
pub proof fn lemma_others_when_none_owned(ms: Seq<Marker>, player: u128)
    requires
        owned(ms, player).len() == 0,
    ensures
        others(ms, player) == ms,
    decreases ms.len(),
{
    if ms.len() > 0 {
        if ms.last().parent == player {
            assert(owned(ms, player).len() > 0);
        }
        lemma_others_when_none_owned(ms.drop_last(), player);
        assert(ms.drop_last().push(ms.last()) =~= ms);
    }
}

/// After a reaper pass at `now`, an object is still present exactly when it
/// was present before and is not expired: a tagged object stays through any
/// pass up to the threshold past its creation and is gone after the first
/// pass beyond it.
pub proof fn lemma_reap_keeps_exactly_unexpired(bs: Seq<Ball>, now: int, b: Ball)
    ensures
        surviving(bs, now).contains(b) <==> bs.contains(b) && !ball_expired(b, now),
    decreases bs.len(),
{
    if bs.len() > 0 {
        let rest = bs.drop_last();
        lemma_reap_keeps_exactly_unexpired(rest, now, b);
        assert(bs =~= rest.push(bs.last()));
        if bs.contains(b) && b != bs.last() {
            let i = choose|i: int| 0 <= i < bs.len() && bs[i] == b;
            assert(rest[i] == b);
        }
        if rest.contains(b) {
            let i = choose|i: int| 0 <= i < rest.len() && rest[i] == b;
            assert(bs[i] == b);
        }
        if !ball_expired(bs.last(), now) {
            let sr = surviving(rest, now);
            assert(sr.push(bs.last())[sr.len() as int] == bs.last());
            if sr.contains(b) {
                let i = choose|i: int| 0 <= i < sr.len() && sr[i] == b;
                assert(sr.push(bs.last())[i] == b);
            }
            if sr.push(bs.last()).contains(b) && b != bs.last() {
                let i = choose|i: int| 0 <= i < sr.len() + 1 && sr.push(bs.last())[i] == b;
                assert(sr[i] == b);
            }
        }
        if bs.last() == b {
            assert(bs[bs.len() - 1] == b);
        }
    }
}

/// Adding one marker for `player` adds exactly that marker to what the
/// player owns, and nothing for anyone else.
pub proof fn lemma_owned_push(ms: Seq<Marker>, m: Marker, player: u128)
    ensures
        m.parent == player ==> owned(ms.push(m), player) == owned(ms, player).push(m),
        m.parent != player ==> owned(ms.push(m), player) == owned(ms, player),
{
    assert(ms.push(m).drop_last() =~= ms);
}

} // verus!
