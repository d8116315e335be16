use vstd::prelude::*;

verus! {

/// Lowest refresh interval, in seconds, that a polling module accepts.
pub const MIN_INTERVAL_SECS: u32 = 1;

/// Clamps a configured exec refresh interval to at least one second.
pub fn normalized_exec_interval(interval_secs: u32) -> (r: u32)
    ensures
        r == if interval_secs < MIN_INTERVAL_SECS { MIN_INTERVAL_SECS } else { interval_secs },
{
    if interval_secs < MIN_INTERVAL_SECS {
        MIN_INTERVAL_SECS
    } else {
        interval_secs
    }
}

/// Milliseconds left before the next full resync of a sysfs-backed module,
/// given how long ago the last one ran and the resync interval: zero once the
/// interval has passed, otherwise what remains of it.
pub fn millis_until_next_resync(elapsed_millis: u64, interval_millis: u64) -> (r: u64)
    ensures
        elapsed_millis >= interval_millis ==> r == 0,
        elapsed_millis < interval_millis ==> r == interval_millis - elapsed_millis,
{
    if elapsed_millis >= interval_millis {
        0
    } else {
        interval_millis - elapsed_millis
    }
}

} // verus!
