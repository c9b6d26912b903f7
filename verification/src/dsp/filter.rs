//! Integer sizing of the decimating low-pass FIR that feeds the demodulators.
use vstd::prelude::*;

verus! {

/// Shortest filter the decimating low-pass uses.
pub const MIN_FILTER_TAPS: usize = 63;
/// Longest filter the decimating low-pass uses.
pub const MAX_FILTER_TAPS: usize = 511;

/// Tap count of the decimating low-pass for a decimation factor: six taps per unit of
/// decimation, made odd for a symmetric filter, and clamped to `[63, 511]`.
pub open spec fn filter_tap_count(decimation: nat) -> nat {
    let raw = 6 * decimation + 1;
    if raw < MIN_FILTER_TAPS {
        MIN_FILTER_TAPS as nat
    } else if raw > MAX_FILTER_TAPS {
        MAX_FILTER_TAPS as nat
    } else {
        raw
    }
}

/// The tap count for `decimation`; see `filter_tap_count`. Always odd.
pub fn audio_filter_tap_count(decimation: usize) -> (n: usize)
    ensures
        n == filter_tap_count(decimation as nat),
        n % 2 == 1,
        MIN_FILTER_TAPS <= n <= MAX_FILTER_TAPS,
{
    if decimation > 84 {
        MAX_FILTER_TAPS
    } else {
        let raw = decimation * 6 + 1;
        if raw < MIN_FILTER_TAPS {
            MIN_FILTER_TAPS
        } else {
            raw
        }
    }
}

/// Whether a new parameter set changes the filter: the taps are recomputed when the decimation,
/// the input rate or the cutoff changes.
pub fn filter_params_changed(
    decimation: usize,
    fs_hz: i64,
    cutoff_changed: bool,
    new_decimation: usize,
    new_fs_hz: i64,
) -> (changed: bool)
    ensures
        changed == (decimation != new_decimation || fs_hz != new_fs_hz || cutoff_changed),
{
    decimation != new_decimation || fs_hz != new_fs_hz || cutoff_changed
}

} // verus!
