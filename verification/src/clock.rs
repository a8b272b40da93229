//! Time, as the ledger counts it.

use vstd::prelude::*;

verus! {

/// The time that a clock reading of `unix_timestamp` seconds stands for: the
/// reading itself, taken as an unsigned number of 64 bits. A reading before
/// the epoch thus counts as a time later than any after it.
pub open spec fn time_of(unix_timestamp: i64) -> int {
    if unix_timestamp >= 0 {
        unix_timestamp as int
    } else {
        unix_timestamp + 0x1_0000_0000_0000_0000
    }
}

/// The time that a clock reading stands for.
pub fn unix_time(unix_timestamp: i64) -> (current_time: u64)
    ensures
        current_time == time_of(unix_timestamp),
{
    let current_time: u64 = #[verifier::truncate] (unix_timestamp as u64);
    assert(current_time == time_of(unix_timestamp)) by (bit_vector)
        requires
            current_time == unix_timestamp as u64,
    ;
    current_time
}

} // verus!
