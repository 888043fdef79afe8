use vstd::prelude::*;

verus! {

/// Age after which a tagged object is retired: five seconds.
pub const TTL_NANOS: u64 = 5_000_000_000;

/// A tagged object created at `created` is expired at `now` once its age
/// exceeds the threshold. A creation time in the future is not expired.
pub open spec fn is_expired(now: int, created: int) -> bool {
    now - created > TTL_NANOS
}

/// Whether an object created at `created` is expired at `now`.
pub fn expired(now: u64, created: u64) -> (r: bool)
    ensures
        r == is_expired(now as int, created as int),
{
    now > created && now - created > TTL_NANOS
}

/// An object tagged at `t0` is never expired at a time up to the threshold
/// past `t0`, and always expired at any time beyond it.
pub proof fn lemma_ttl_exact(t0: int, now: int)
    ensures
        now <= t0 + TTL_NANOS ==> !is_expired(now, t0),
        now > t0 + TTL_NANOS ==> is_expired(now, t0),
{
}

} // verus!
