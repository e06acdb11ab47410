use vstd::prelude::*;

verus! {

/// Seconds in one day.
pub const SECONDS_IN_24H: u64 = 86400;

/// Whether at least a full day separates `last_activity` from `current_time`.
pub fn has_24_hours_passed(last_activity: i64, current_time: i64) -> (r: bool)
    ensures
        r == (current_time - last_activity >= SECONDS_IN_24H),
{
    (current_time as i128) - (last_activity as i128) >= SECONDS_IN_24H as i128
}

} // verus!
