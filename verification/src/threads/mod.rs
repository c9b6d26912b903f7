//! Decision logic of the worker loops; the loops themselves run in the application.
use vstd::prelude::*;

pub mod control;
pub mod rx_io;
pub mod tx_io;
pub mod tx_dsp;
pub mod network;
pub mod audio;

verus! {

} // verus!
