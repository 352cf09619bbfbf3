//! The clock of the flush cycle: Unix time in whole seconds.

use crate::counter::wrapped;
use vstd::prelude::*;

verus! {

/// `chrono::Utc::now`, read with `timestamp`: the seconds since the Unix
/// epoch on the system clock. Two calls may differ, and nothing is claimed of
/// the result.
#[verifier::external_body]
pub(crate) fn unix_now() -> (seconds: i64) {
    chrono::Utc::now().timestamp()
}

/// The seconds from `last_flush` to `now`, as a 64-bit counter holds them:
/// the difference itself where `now` is not before `last_flush`, and the
/// difference plus 2^64 where the clock was set back in between.
pub open spec fn seconds_between(last_flush: i64, now: i64) -> u64 {
    wrapped(now - last_flush)
}

/// The seconds from `last_flush` to `now`.
pub fn elapsed_between(last_flush: i64, now: i64) -> (seconds: u64)
    ensures
        seconds == seconds_between(last_flush, now),
{
    if now >= last_flush {
        let whole: i128 = now as i128 - last_flush as i128;
        whole as u64
    } else {
        let short: i128 = last_flush as i128 - now as i128;
        let whole: u128 = 0x1_0000_0000_0000_0000u128 - short as u128;
        whole as u64
    }
}

/// Time since the last flush grows with the clock: as long as the clock is
/// not set back before the last flush, a later reading is no smaller than an
/// earlier one, and each reading is the plain difference of the two times.
pub proof fn lemma_elapsed_grows(last_flush: i64, earlier: i64, later: i64)
    requires
        last_flush <= earlier <= later,
    ensures
        seconds_between(last_flush, earlier) == earlier - last_flush,
        seconds_between(last_flush, later) == later - last_flush,
        seconds_between(last_flush, earlier) <= seconds_between(last_flush, later),
{
}

/// A flush starts the count anew: read at the moment of the flush, the time
/// since the last flush is zero.
pub proof fn lemma_elapsed_starts_at_zero(now: i64)
    ensures
        seconds_between(now, now) == 0,
{
}

} // verus!
