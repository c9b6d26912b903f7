//! Control, register and stream logic of the Pluto+ SSB transceiver host application.
use vstd::prelude::*;

pub mod text;
pub mod state;
pub mod device;
pub mod dsp;
pub mod threads;
pub mod diagnostics;
pub mod phy;

use crate::state::DemodMode;
use crate::text::{decimal_u16, parse_u16, str_eq};

verus! {

/// Minimum hardware span for the SSB modes.
pub const MIN_SPAN_SSB: i64 = 768_000;
/// Minimum hardware span for FM.
pub const MIN_SPAN_FM: i64 = 3_840_000;
/// Maximum span supported by the AD9361 driver.
pub const MAX_SPAN: i64 = 30_720_000;

/// Wideband burst length; must match the FPGA's BURST_LEN.
pub const WATERFALL_DMA_SIZE: usize = 16384;
/// Default waterfall FFT size.
pub const WATERFALL_FFT_SIZE: usize = 8192;
/// TX DMA buffer length in samples.
pub const TX_DMA_SIZE: usize = 4096;
/// Audio sample rate of the modulator and of the network audio streams.
pub const AUDIO_SAMPLE_RATE: u32 = 48_000;
/// Default TX DDS offset: the TX LO sits this far below the listening frequency.
pub const DEFAULT_TX_OFFSET_HZ: i64 = 50_000;

/// The minimum hardware span each demodulation mode needs.
pub open spec fn min_span_for(mode: DemodMode) -> i64 {
    match mode {
        DemodMode::FM => MIN_SPAN_FM,
        DemodMode::USB | DemodMode::LSB => MIN_SPAN_SSB,
    }
}

/// Minimum hardware span required by a demodulation mode.
pub fn get_min_span(mode: DemodMode) -> (r: i64)
    ensures
        r == min_span_for(mode),
{
    match mode {
        DemodMode::FM => MIN_SPAN_FM,
        DemodMode::USB | DemodMode::LSB => MIN_SPAN_SSB,
    }
}

/// The port that `<flag> <N>` on a command line selects: the value after the first occurrence of
/// `flag`, when it is a valid port number (a decimal in 1-65535); `default` when the flag is
/// absent, has no value, or its value is not a valid port (does not parse, or is 0).
pub open spec fn port_arg(args: Seq<Seq<char>>, flag: Seq<char>, default: u16) -> u16 {
    if exists|i: int| 0 <= i < args.len() && args[i] == flag {
        let i = choose|i: int|
            0 <= i < args.len() && args[i] == flag && forall|j: int| 0 <= j < i ==> args[j] != flag;
        if i + 1 < args.len() {
            match decimal_u16(args[i + 1]) {
                Some(p) => if p != 0 {
                    p
                } else {
                    default
                },
                None => default,
            }
        } else {
            default
        }
    } else {
        default
    }
}

/// Reads `<flag> <N>` from the command line arguments, falling back to `default` if the flag is
/// absent or its value is missing or not a valid port number (1-65535).
pub fn parse_port_arg(args: &[String], flag: &str, default: u16) -> (r: u16)
    ensures
        r == port_arg(args@.map_values(|a: String| a@), flag@, default),
{
    let ghost v = args@.map_values(|a: String| a@);
    let mut i: usize = 0;
    while i < args.len()
        invariant
            0 <= i <= args.len(),
            v == args@.map_values(|a: String| a@),
            forall|j: int| 0 <= j < i ==> v[j] != flag@,
        decreases args.len() - i,
    {
        if str_eq(args[i].as_str(), flag) {
            proof {
                assert(v[i as int] == flag@);
                let k = choose|k: int|
                    0 <= k < v.len() && v[k] == flag@ && forall|j: int| 0 <= j < k ==> v[j] != flag@;
                assert(k == i) by {
                    if k < i {
                    } else if k > i {
                        assert(v[i as int] != flag@);
                    }
                }
            }
            if i + 1 < args.len() {
                match parse_u16(args[i + 1].as_str()) {
                    Some(p) => {
                        if p != 0 {
                            return p;
                        } else {
                            return default;
                        }
                    },
                    None => {
                        return default;
                    },
                }
            } else {
                return default;
            }
        }
        i = i + 1;
    }
    proof {
        assert forall|k: int| 0 <= k < v.len() implies v[k] != flag@ by {}
    }
    default
}

} // verus!
