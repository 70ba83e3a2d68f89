//! How fast the time stamp counter runs.

use vstd::prelude::*;

verus! {

/// Ticks per microsecond where nothing better is known: 2.4 GHz.
pub const DEFAULT_TSC_PER_US: u64 = 2400;

/// The same for a kernel that only knows the PIT: 1 GHz. Timing will be off
/// but the kernel boots.
pub const SLOW_TSC_PER_US: u64 = 1000;

/// Ticks per microsecond, from the hypervisor's TSC frequency in Hz. 0 says
/// that it does not know.
pub open spec fn hv_tsc_per_us(hz: u64) -> Option<u64> {
    if hz == 0 {
        None
    } else {
        Some(hz / 1_000_000)
    }
}

/// Convert the Hyper-V TSC frequency MSR (cycles per second) to cycles per
/// microsecond. `None` if the MSR does not say.
pub fn read_hv_tsc_freq(hz: u64) -> (r: Option<u64>)
    ensures
        r == hv_tsc_per_us(hz),
{
    if hz == 0 {
        None
    } else {
        Some(hz / 1_000_000)
    }
}

/// What calibration against the PIT gave, or else the fallback.
pub fn calibrated_or(pit: Option<u64>, fallback: u64) -> (r: u64)
    ensures
        r == match pit {
            Some(ticks) => ticks,
            None => fallback,
        },
{
    match pit {
        Some(ticks) => ticks,
        None => fallback,
    }
}

/// The rate is the whole number of ticks in a microsecond, and is unknown only
/// where the frequency is 0.
pub proof fn rate_is_in_ticks_per_microsecond(hz: u64, r: Option<u64>)
    requires
        call_ensures(read_hv_tsc_freq, (hz,), r),
    ensures
        r is None <==> hz == 0,
        r matches Some(rate) ==> rate * 1_000_000 <= hz < (rate + 1) * 1_000_000,
        hv_tsc_per_us(hz) == r,
{
}

/// What calibration gave is taken as it is; the fallback only where it gave
/// nothing.
pub proof fn calibration_is_taken(ticks: u64, fallback: u64, r: u64)
    ensures
        call_ensures(calibrated_or, (Some(ticks), fallback), r) ==> r == ticks,
        call_ensures(calibrated_or, (None::<u64>, fallback), r) ==> r == fallback,
{
}

} // verus!
