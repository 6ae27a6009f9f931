//! Monotonic-time arithmetic. Every layer receives the current time in
//! milliseconds from its caller; deadlines saturate instead of wrapping.

use vstd::prelude::*;

verus! {

/// `time + delta`, saturating at the largest representable instant.
pub open spec fn spec_deadline(time: u64, delta: u64) -> u64 {
    if time + delta <= u64::MAX {
        (time + delta) as u64
    } else {
        u64::MAX
    }
}

pub fn deadline(time: u64, delta: u64) -> (r: u64)
    ensures
        r == spec_deadline(time, delta),
{
    if time <= u64::MAX - delta {
        time + delta
    } else {
        u64::MAX
    }
}

} // verus!
