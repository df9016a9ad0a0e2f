//! Timing arithmetic for the timed work runner.
//!
//! A worker samples a clock immediately before and after its request
//! loop; the elapsed time arrives here as whole seconds plus a
//! sub-second nanosecond remainder, and is folded into a single
//! nanosecond count. The clock itself is sampled by the unverified
//! binary; only the conversion is done (and verified) here.

use vstd::prelude::*;

verus! {

pub const NANOS_PER_SEC: u64 = 1_000_000_000;

/// The exact nanosecond count of a duration given as whole seconds plus
/// a sub-second remainder.
pub open spec fn spec_duration_nanos(secs: u64, subsec_nanos: u32) -> int {
    secs * NANOS_PER_SEC + subsec_nanos
}

/// Fold a duration into one nanosecond count, saturating at `u64::MAX`
/// (reached only after about 584 years of elapsed time).
pub fn duration_to_nanos(secs: u64, subsec_nanos: u32) -> (n: u64)
    ensures
        spec_duration_nanos(secs, subsec_nanos) <= u64::MAX ==> n == spec_duration_nanos(
            secs,
            subsec_nanos,
        ),
        spec_duration_nanos(secs, subsec_nanos) > u64::MAX ==> n == u64::MAX,
{
    match secs.checked_mul(NANOS_PER_SEC) {
        Some(whole) => match whole.checked_add(subsec_nanos as u64) {
            Some(total) => total,
            None => u64::MAX,
        },
        None => u64::MAX,
    }
}

} // verus!
