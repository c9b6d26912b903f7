//! Integer decisions of the RX audio path: where the receive DDS must shift the tuned signal,
//! the rate at which the audio DMA delivers samples, and what the audio loop does with each
//! DMA block.
use vstd::prelude::*;

use crate::device::quotient_toward_zero;

verus! {

/// The offset of the listening frequency from the LO, clamped to the captured band
/// `[-fs/2, fs/2]` (with `fs/2` rounded toward zero).
pub open spec fn tune_offset(playback_hz: int, lo_hz: int, fs_hz: int) -> int {
    let half = quotient_toward_zero(fs_hz, 2);
    let d = playback_hz - lo_hz;
    if d < -half {
        -half
    } else if d > half {
        half
    } else {
        d
    }
}

/// The DDS offset is the listening frequency's distance from the LO while that lies inside the
/// captured band `[-fs/2, fs/2]`, the nearer band edge otherwise; it is odd in that distance,
/// so a frequency below the LO is never mistaken for its mirror above it.
pub proof fn lemma_tune_offset_tracks_listening_frequency(playback_hz: int, lo_hz: int, fs_hz: int)
    ensures
        fs_hz >= 0 && -(fs_hz / 2) <= playback_hz - lo_hz <= fs_hz / 2 ==> tune_offset(
            playback_hz,
            lo_hz,
            fs_hz,
        ) == playback_hz - lo_hz,
        fs_hz >= 0 && playback_hz - lo_hz > fs_hz / 2 ==> tune_offset(playback_hz, lo_hz, fs_hz)
            == fs_hz / 2,
        fs_hz >= 0 && playback_hz - lo_hz < -(fs_hz / 2) ==> tune_offset(playback_hz, lo_hz, fs_hz)
            == -(fs_hz / 2),
        fs_hz == -1 ==> tune_offset(playback_hz, lo_hz, fs_hz) == 0,
        fs_hz >= -1 ==> tune_offset(lo_hz - (playback_hz - lo_hz), lo_hz, fs_hz) == -tune_offset(
            playback_hz,
            lo_hz,
            fs_hz,
        ),
{
}

/// The frequency the receive DDS must bring to DC: the listening frequency's offset from the
/// LO, held inside the Nyquist band of the baseband rate. A negative rate below -1 leaves no
/// band at all and is not accepted.
pub fn rx_tune_offset(playback_hz: i64, lo_hz: i64, fs_hz: i64) -> (target: i64)
    requires
        fs_hz >= -1,
        i64::MIN <= playback_hz - lo_hz <= i64::MAX,
    ensures
        target == tune_offset(playback_hz as int, lo_hz as int, fs_hz as int),
        fs_hz >= 0 && -(fs_hz / 2) <= playback_hz - lo_hz <= fs_hz / 2 ==> target == playback_hz
            - lo_hz,
        fs_hz >= 0 && playback_hz - lo_hz > fs_hz / 2 ==> target == fs_hz / 2,
        fs_hz >= 0 && playback_hz - lo_hz < -(fs_hz / 2) ==> target == -(fs_hz / 2),
        fs_hz == -1 ==> target == 0,
{
    proof {
        lemma_tune_offset_tracks_listening_frequency(playback_hz as int, lo_hz as int, fs_hz as int);
    }
    let half = fs_hz / 2;
    let d = playback_hz - lo_hz;
    if d < -half {
        -half
    } else if d > half {
        half
    } else {
        d
    }
}

/// The rate of the samples the audio DMA delivers: the baseband rate divided by the fabric's
/// CIC decimation and then by the fixed decimate-by-4 FIR.
pub fn audio_dma_rate(fs_hz: i64, rx_cic_decimation: u32) -> (rate: i64)
    requires
        rx_cic_decimation != 0,
    ensures
        rate == quotient_toward_zero(
            quotient_toward_zero(fs_hz as int, rx_cic_decimation as int),
            4,
        ),
{
    (fs_hz / (rx_cic_decimation as i64)) / 4
}

/// Audio is broadcast to clients in chunks of at least this many samples.
pub const AUDIO_CHUNK: usize = 4096;
/// Seconds without any DMA data after which the audio path is restarted.
pub const STALL_SECS: u64 = 5;

/// What the audio loop does at the top of a turn.
#[derive(Clone, Copy, Debug, PartialEq, Eq, Structural)]
pub enum AudioGate {
    /// The receiver is stopped: all held samples and audio are dropped, the stall watch
    /// restarts, and the loop sleeps.
    Paused,
    /// Audio is switched off: held samples are dropped, the stall watch restarts, and the loop
    /// sleeps.
    Disabled,
    /// The loop waits for the next DMA block.
    Open,
}

/// What the audio loop does this turn: a stopped receiver pauses it, switched-off audio
/// disables it, otherwise it waits for data.
pub fn audio_gate(running: bool, enabled: bool) -> (g: AudioGate)
    ensures
        g == if !running {
            AudioGate::Paused
        } else if !enabled {
            AudioGate::Disabled
        } else {
            AudioGate::Open
        },
{
    if !running {
        AudioGate::Paused
    } else if !enabled {
        AudioGate::Disabled
    } else {
        AudioGate::Open
    }
}

/// What the audio loop does with a DMA read.
#[derive(Clone, Copy, Debug, PartialEq, Eq, Structural)]
pub enum AudioBlock {
    /// Samples arrived while the hardware reconfigures: they are dropped (audio stays muted)
    /// and the stall watch restarts.
    Discard,
    /// No data for more than `STALL_SECS`: the fabric DSP config is re-applied, the audio DMA
    /// reset, and the stall watch restarts.
    RecoverStall,
    /// No data for more than `STALL_SECS`, but a reconfiguration is under way: only the stall
    /// watch restarts.
    RestartWatch,
    /// No data yet: wait briefly.
    Wait,
    /// Samples arrived: they are filtered and demodulated, and the stall watch restarts.
    Demodulate,
}

/// The action for a DMA read of `samples_read` samples, given whether the audio path was marked
/// reconfiguring when the turn began, the whole seconds since data last arrived, and whether
/// the fabric is reconfiguring now.
pub fn audio_block_step(
    samples_read: usize,
    path_configuring: bool,
    secs_since_data: u64,
    fabric_configuring: bool,
) -> (a: AudioBlock)
    ensures
        a == if samples_read > 0 {
            if path_configuring {
                AudioBlock::Discard
            } else {
                AudioBlock::Demodulate
            }
        } else if secs_since_data > STALL_SECS {
            if fabric_configuring {
                AudioBlock::RestartWatch
            } else {
                AudioBlock::RecoverStall
            }
        } else {
            AudioBlock::Wait
        },
{
    if samples_read > 0 {
        if path_configuring {
            AudioBlock::Discard
        } else {
            AudioBlock::Demodulate
        }
    } else if secs_since_data > STALL_SECS {
        if fabric_configuring {
            AudioBlock::RestartWatch
        } else {
            AudioBlock::RecoverStall
        }
    } else {
        AudioBlock::Wait
    }
}

/// Whether the demodulated audio held so far makes a chunk to broadcast.
pub fn audio_chunk_ready(buffered: usize) -> (r: bool)
    ensures
        r == (buffered >= AUDIO_CHUNK),
{
    buffered >= AUDIO_CHUNK
}

} // verus!
