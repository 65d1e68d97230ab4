//! Hardware awareness: how many threads inference may use.

use vstd::prelude::*;

verus! {

/// The number of cores of the reference device.
pub const DEVICE_CORES: i32 = 8;

/// The thread budget for a device with `cores` cores: two up to four cores,
/// three up to six, and four beyond.
pub open spec fn threads_for(cores: int) -> int {
    if cores <= 4 {
        2
    } else if cores <= 6 {
        3
    } else {
        4
    }
}

/// The number of threads that inference may use on this device.
pub fn safe_threads() -> (threads: i32)
    ensures
        threads == threads_for(DEVICE_CORES as int),
        threads == 4,
{
    let cores: i32 = DEVICE_CORES;
    if cores <= 4 {
        2
    } else if cores <= 6 {
        3
    } else {
        4
    }
}

/// Tells whether the device is too hot for full-speed inference. No sensor
/// is read: the answer is always no.
pub fn check_thermal_throttle() -> (throttled: bool)
    ensures
        !throttled,
{
    false
}

} // verus!
