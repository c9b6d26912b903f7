//! The order of the AD9361 attribute writes that change the baseband rate, the internal FIR and
//! the antenna. The driver rejects rates outside the range allowed by the current FIR state, so
//! each change is a sequence of steps whose order matters; the application performs the steps.
use vstd::prelude::*;

use crate::device::AD9361_MIN_FS_NO_FIR;

verus! {

/// The rate the driver accepts both with and without the FIR, used as a stepping stone.
pub const SAFE_BRIDGE_RATE: i64 = 3_000_000;

/// One attribute write on the AD9361.
#[derive(Clone, Copy, Debug, PartialEq, Eq, Structural)]
pub enum PhyStep {
    /// Move the shared baseband rate to `SAFE_BRIDGE_RATE`; a failure is ignored.
    BridgeRate,
    /// Write the baseband rate; a failure aborts the change.
    WriteRate(i64),
    /// Write the RF bandwidth; a failure aborts the change.
    WriteBandwidth(i64),
    /// Switch the FIR on or off; a failure aborts the change.
    SetFir(bool),
}

/// Steps that take the FIR offline before its coefficients are rewritten: nothing when it is
/// off; otherwise, from a rate at or below the no-FIR floor, first the bridge rate, then the
/// FIR off.
pub fn fir_reload_prelude(fir_enabled: bool, current_rate: i64) -> (steps: Vec<PhyStep>)
    ensures
        steps@ == if !fir_enabled {
            seq![]
        } else if current_rate <= AD9361_MIN_FS_NO_FIR {
            seq![PhyStep::BridgeRate, PhyStep::SetFir(false)]
        } else {
            seq![PhyStep::SetFir(false)]
        },
{
    let mut steps: Vec<PhyStep> = Vec::new();
    if fir_enabled {
        if current_rate <= AD9361_MIN_FS_NO_FIR {
            steps.push(PhyStep::BridgeRate);
        }
        steps.push(PhyStep::SetFir(false));
    }
    assert(steps@ =~= if !fir_enabled {
        seq![]
    } else if current_rate <= AD9361_MIN_FS_NO_FIR {
        seq![PhyStep::BridgeRate, PhyStep::SetFir(false)]
    } else {
        seq![PhyStep::SetFir(false)]
    });
    steps
}

/// Whether enabling the FIR for `rate` first needs the driver's `tx_path_rates` report (to
/// decide on the bridge rate): only for rates at or below the no-FIR floor.
pub fn fir_enable_needs_path_rates(rate: i64) -> (r: bool)
    ensures
        r == (rate <= AD9361_MIN_FS_NO_FIR),
{
    rate <= AD9361_MIN_FS_NO_FIR
}

/// Steps that switch the FIR on with the new coefficients and set `rate`. At or below the
/// no-FIR floor the FIR goes on first (after the bridge rate when `bridge` says the DAC ratio
/// leaves too little headroom), then the rate is written; above it the rate is written first.
pub fn fir_enable_steps(rate: i64, bridge: bool) -> (steps: Vec<PhyStep>)
    ensures
        steps@ == if rate <= AD9361_MIN_FS_NO_FIR {
            if bridge {
                seq![PhyStep::BridgeRate, PhyStep::SetFir(true), PhyStep::WriteRate(rate)]
            } else {
                seq![PhyStep::SetFir(true), PhyStep::WriteRate(rate)]
            }
        } else {
            seq![PhyStep::WriteRate(rate), PhyStep::SetFir(true)]
        },
{
    let mut steps: Vec<PhyStep> = Vec::new();
    if rate <= AD9361_MIN_FS_NO_FIR {
        if bridge {
            steps.push(PhyStep::BridgeRate);
        }
        steps.push(PhyStep::SetFir(true));
        steps.push(PhyStep::WriteRate(rate));
    } else {
        steps.push(PhyStep::WriteRate(rate));
        steps.push(PhyStep::SetFir(true));
    }
    assert(steps@ =~= if rate <= AD9361_MIN_FS_NO_FIR {
        if bridge {
            seq![PhyStep::BridgeRate, PhyStep::SetFir(true), PhyStep::WriteRate(rate)]
        } else {
            seq![PhyStep::SetFir(true), PhyStep::WriteRate(rate)]
        }
    } else {
        seq![PhyStep::WriteRate(rate), PhyStep::SetFir(true)]
    });
    steps
}

/// Steps that switch the FIR off: nothing when it is already off; otherwise, from a rate below
/// the no-FIR floor (an unreadable rate counts as 0), first the bridge rate, then the FIR off.
pub fn fir_disable_steps(fir_enabled: bool, current_rate: Option<i64>) -> (steps: Vec<PhyStep>)
    ensures
        steps@ == if !fir_enabled {
            seq![]
        } else if (match current_rate {
            Some(r) => r,
            None => 0,
        }) < AD9361_MIN_FS_NO_FIR {
            seq![PhyStep::BridgeRate, PhyStep::SetFir(false)]
        } else {
            seq![PhyStep::SetFir(false)]
        },
{
    let mut steps: Vec<PhyStep> = Vec::new();
    if fir_enabled {
        let rate = match current_rate {
            Some(r) => r,
            None => 0,
        };
        if rate < AD9361_MIN_FS_NO_FIR {
            steps.push(PhyStep::BridgeRate);
        }
        steps.push(PhyStep::SetFir(false));
    }
    assert(steps@ =~= if !fir_enabled {
        seq![]
    } else if (match current_rate {
        Some(r) => r,
        None => 0,
    }) < AD9361_MIN_FS_NO_FIR {
        seq![PhyStep::BridgeRate, PhyStep::SetFir(false)]
    } else {
        seq![PhyStep::SetFir(false)]
    });
    steps
}

/// Steps that re-apply the rate and bandwidth on a newly selected antenna channel (whose current
/// rate is `current_fs`, or unknown). Raising the rate writes it before the bandwidth, otherwise
/// the bandwidth goes first, so the bandwidth never exceeds what the rate allows.
pub fn antenna_retune_steps(sampling_frequency: i64, rf_bandwidth: i64, current_fs: Option<i64>) -> (steps:
    Vec<PhyStep>)
    ensures
        steps@ == if sampling_frequency > (match current_fs {
            Some(c) => c,
            None => sampling_frequency,
        }) {
            seq![PhyStep::WriteRate(sampling_frequency), PhyStep::WriteBandwidth(rf_bandwidth)]
        } else {
            seq![PhyStep::WriteBandwidth(rf_bandwidth), PhyStep::WriteRate(sampling_frequency)]
        },
{
    let current = match current_fs {
        Some(c) => c,
        None => sampling_frequency,
    };
    let mut steps: Vec<PhyStep> = Vec::new();
    if sampling_frequency > current {
        steps.push(PhyStep::WriteRate(sampling_frequency));
        steps.push(PhyStep::WriteBandwidth(rf_bandwidth));
    } else {
        steps.push(PhyStep::WriteBandwidth(rf_bandwidth));
        steps.push(PhyStep::WriteRate(sampling_frequency));
    }
    assert(steps@ =~= if sampling_frequency > current {
        seq![PhyStep::WriteRate(sampling_frequency), PhyStep::WriteBandwidth(rf_bandwidth)]
    } else {
        seq![PhyStep::WriteBandwidth(rf_bandwidth), PhyStep::WriteRate(sampling_frequency)]
    });
    steps
}

/// The RX RF bandwidth actually requested: never wider than the baseband rate.
pub fn rx_bandwidth_request(rf_bandwidth: i64, sampling_frequency: i64) -> (bw: i64)
    ensures
        bw == if rf_bandwidth < sampling_frequency {
            rf_bandwidth
        } else {
            sampling_frequency
        },
{
    if rf_bandwidth < sampling_frequency {
        rf_bandwidth
    } else {
        sampling_frequency
    }
}

} // verus!
