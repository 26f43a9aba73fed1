//! Time as the library sees it: milliseconds of a monotonic clock that the
//! caller reads.

use vstd::prelude::*;

verus! {

/// Milliseconds from `since` to `now`; a clock that went backwards gives 0.
pub open spec fn elapsed(since: u64, now: u64) -> nat {
    if now >= since {
        (now - since) as nat
    } else {
        0
    }
}

/// `elapsed` computed.
pub fn elapsed_ms(since: u64, now: u64) -> (r: u64)
    ensures
        r as nat == elapsed(since, now),
{
    if now >= since {
        now - since
    } else {
        0
    }
}

/// The instant `delay` milliseconds after `now`, held at the clock's end.
pub open spec fn later(now: u64, delay: u64) -> u64 {
    if now + delay <= u64::MAX {
        (now + delay) as u64
    } else {
        u64::MAX
    }
}

/// `later` computed.
pub fn later_ms(now: u64, delay: u64) -> (r: u64)
    ensures
        r == later(now, delay),
{
    if now <= u64::MAX - delay {
        now + delay
    } else {
        u64::MAX
    }
}

} // verus!
