//! The clock as the agent reads it.

use vstd::prelude::*;

verus! {

/// The instant that a reading of the clock stands for, in whole seconds
/// since the Unix epoch.  A clock that shows no time counts as standing at
/// zero.
pub open spec fn instant_of(reading: Option<u64>) -> u64 {
    match reading {
        Some(seconds) => seconds,
        None => 0,
    }
}

/// The instant that a reading of the clock stands for.
pub fn instant(reading: Option<u64>) -> (seconds: u64)
    ensures
        seconds == instant_of(reading),
{
    match reading {
        Some(seconds) => seconds,
        None => 0,
    }
}

} // verus!
