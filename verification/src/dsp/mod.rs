//! Integer parts of the DSP chain: transmit mode selection, resampling schedules, history
//! rings and waterfall row post-processing.
use vstd::prelude::*;

pub mod tx;
pub mod ring;
pub mod waterfall;
pub mod filter;

verus! {

} // verus!
