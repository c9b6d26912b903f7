//! The control plane of the device loop: what each user command changes in the session state
//! and which hardware, DSP and status actions it requests.
use vstd::prelude::*;

use crate::device::GainMode;
use crate::dsp::tx::{TxMode, tx_mode_from_name};
use crate::state::{DemodMode, demod_mode_from_name};
use crate::{
    DEFAULT_TX_OFFSET_HZ, MAX_SPAN, MIN_SPAN_FM, WATERFALL_DMA_SIZE, WATERFALL_FFT_SIZE,
    get_min_span, min_span_for,
};

verus! {

/// A request for the RX IO thread, which owns the receiver hardware.
#[derive(Clone, Copy, Debug, PartialEq, Eq, Structural)]
pub enum IoRequest {
    SetCenterFrequency(i64),
    SetSpan { center_hz: i64, span_hz: i64 },
    SetAntenna(u8),
    /// Keys or unkeys the transmitter. With `safe_gain` the TX attenuation is the minimum gain;
    /// otherwise it is the gain the user's command carried.
    SetTxState { active: bool, safe_gain: bool, playback_hz: i64, rx_lo_hz: i64 },
    /// The parsed gain mode; `None` when the requested name was not a gain mode.
    SetRxGainMode(Option<GainMode>),
    SetRfBandwidth(i64),
    /// Keeps the TX LO following the listening frequency while transmitting.
    SetTxPlaybackFrequency(i64),
}

/// An action the device loop performs on behalf of the control plane.
#[derive(Clone, Copy, Debug, PartialEq, Eq, Structural)]
pub enum ControlAction {
    /// Publishes the running flag to the worker threads.
    SetRunning(bool),
    /// Publishes the transmitter's active flag to the modulator.
    SetTxActive(bool),
    /// Sends a request to the RX IO thread.
    Io(IoRequest),
    /// Re-tunes the RX DDS and the audio demodulator.
    RetuneAudio { playback_hz: i64, lo_hz: i64, fs_hz: i64, mode: DemodMode },
    /// Marks the fabric and the audio path as reconfiguring (audio muted).
    BeginReconfiguration,
    SetAudioEnabled(bool),
    SetTxMode(TxMode),
    /// Rebuilds the waterfall processor at a new FFT size, keeping its dB scale.
    ResizeWaterfall(usize),
    /// Ignores an invalid waterfall FFT size (logged).
    RejectWaterfallSize(usize),
    /// Broadcasts the hardware operating point.
    ReportConfig { lo_hz: i64, fs_hz: i64, min_span_hz: i64 },
    /// Broadcasts the session settings.
    ReportSettings,
    /// Publishes a confirmed sample rate to the transmitter and the audio path.
    PublishRate(i64),
    /// Discards queued wideband bursts taken before the retune.
    FlushRxBacklog,
    /// Re-applies the fabric DSP config at the confirmed rate, retunes the TX to `tx_lo_hz`,
    /// resets the audio DMA and clears the reconfiguring marks.
    CompleteReconfiguration { fs_hz: i64, tx_lo_hz: i64 },
}

/// Hardware spans the receiver can be set to, smallest first, for SSB and for FM.
pub open spec fn span_steps(ssb: bool) -> Seq<i64> {
    if ssb {
        seq![768_000i64, 1_536_000, 3_840_000, 7_680_000, 15_360_000]
    } else {
        seq![3_840_000i64, 7_680_000, 15_360_000]
    }
}

/// The hardware span for a requested span: the smallest step not below the request, or the
/// maximum span when the request exceeds every step.
pub open spec fn hardware_span(requested: i64, ssb: bool) -> i64 {
    let steps = span_steps(ssb);
    if exists|k: int| 0 <= k < steps.len() && requested <= steps[k] {
        let k = choose|k: int|
            0 <= k < steps.len() && requested <= steps[k] && forall|j: int|
                0 <= j < k ==> requested > steps[j];
        steps[k]
    } else {
        MAX_SPAN
    }
}

/// Whether a mode demodulates a sideband.
pub open spec fn is_ssb(mode: DemodMode) -> bool {
    mode == DemodMode::USB || mode == DemodMode::LSB
}

/// Rounds a requested span up to a span the AD9361/FPGA chain supports for the mode.
pub fn round_span(requested: i64, ssb: bool) -> (r: i64)
    ensures
        r == hardware_span(requested, ssb),
        ssb ==> (r == 768_000 || r == 1_536_000 || r == 3_840_000 || r == 7_680_000 || r
            == 15_360_000 || r == 30_720_000),
        !ssb ==> (r == 3_840_000 || r == 7_680_000 || r == 15_360_000 || r == 30_720_000),
        requested <= 15_360_000 ==> requested <= r,
        (requested <= 768_000 && ssb) ==> r <= 768_000,
        (requested <= 1_536_000 && ssb) ==> r <= 1_536_000,
        requested <= 3_840_000 ==> r <= 3_840_000,
        requested <= 7_680_000 ==> r <= 7_680_000,
        requested <= 15_360_000 ==> r <= 15_360_000,
{
    proof {
        lemma_span_is_smallest_covering_step(requested);
    }
    let steps: [i64; 5] = [768_000, 1_536_000, 3_840_000, 7_680_000, 15_360_000];
    let first: usize = if ssb { 0 } else { 2 };
    let ghost s = span_steps(ssb);
    assert(forall|k: int| 0 <= k < s.len() ==> s[k] == steps@[first + k]);
    let mut k: usize = first;
    while k < 5
        invariant
            first <= k <= 5,
            s == span_steps(ssb),
            s.len() == 5 - first,
            forall|j: int| 0 <= j < s.len() ==> s[j] == steps@[first + j],
            forall|j: int| 0 <= j < k - first ==> requested > s[j],
        decreases 5 - k,
    {
        if requested <= steps[k] {
            proof {
                let w = (k - first) as int;
                assert(requested <= s[w]);
                let c = choose|c: int|
                    0 <= c < s.len() && requested <= s[c] && forall|j: int|
                        0 <= j < c ==> requested > s[j];
                assert(c == w) by {
                    if c < w {
                    } else if c > w {
                        assert(requested > s[w]);
                    }
                }
            }
            return steps[k];
        }
        k = k + 1;
    }
    assert forall|j: int| 0 <= j < s.len() implies requested > s[j] by {}
    MAX_SPAN
}

/// The span chosen for a mode never falls below that mode's minimum span nor above the
/// maximum span, and it covers the request whenever the hardware can.
pub proof fn lemma_hardware_span_bounds(requested: i64, mode: DemodMode)
    ensures
        min_span_for(mode) <= hardware_span(requested, is_ssb(mode)) <= MAX_SPAN,
        requested <= MAX_SPAN ==> requested <= hardware_span(requested, is_ssb(mode)),
{
    let steps = span_steps(is_ssb(mode));
    if exists|k: int| 0 <= k < steps.len() && requested <= steps[k] {
        let k = choose|k: int|
            0 <= k < steps.len() && requested <= steps[k] && forall|j: int|
                0 <= j < k ==> requested > steps[j];
        assert(0 <= k < steps.len());
    }
}

/// The span chosen is the smallest supported step that covers the request: for SSB the steps
/// are 768 kHz, 1.536, 3.84, 7.68 and 15.36 MHz, for FM 3.84, 7.68 and 15.36 MHz; the chosen
/// span is one of them (or the 30.72 MHz maximum when none covers the request), covers the
/// request, and is no larger than any step that covers it.
pub proof fn lemma_span_is_smallest_covering_step(requested: i64)
    ensures
        ({
            let r = hardware_span(requested, true);
            &&& r == 768_000 || r == 1_536_000 || r == 3_840_000 || r == 7_680_000 || r
                == 15_360_000 || r == 30_720_000
            &&& requested <= 15_360_000 ==> requested <= r
            &&& requested <= 768_000 ==> r <= 768_000
            &&& requested <= 1_536_000 ==> r <= 1_536_000
            &&& requested <= 3_840_000 ==> r <= 3_840_000
            &&& requested <= 7_680_000 ==> r <= 7_680_000
            &&& requested <= 15_360_000 ==> r <= 15_360_000
            &&& requested > 15_360_000 ==> r == 30_720_000
        }),
        ({
            let r = hardware_span(requested, false);
            &&& r == 3_840_000 || r == 7_680_000 || r == 15_360_000 || r == 30_720_000
            &&& requested <= 15_360_000 ==> requested <= r
            &&& requested <= 3_840_000 ==> r <= 3_840_000
            &&& requested <= 7_680_000 ==> r <= 7_680_000
            &&& requested <= 15_360_000 ==> r <= 15_360_000
            &&& requested > 15_360_000 ==> r == 30_720_000
        }),
{
    let a = span_steps(true);
    let b = span_steps(false);
    if exists|k: int| 0 <= k < a.len() && requested <= a[k] {
        let k = choose|k: int|
            0 <= k < a.len() && requested <= a[k] && forall|j: int| 0 <= j < k ==> requested > a[j];
        assert(0 <= k < a.len());
    } else {
        assert(requested > a[4]);
    }
    if exists|k: int| 0 <= k < b.len() && requested <= b[k] {
        let k = choose|k: int|
            0 <= k < b.len() && requested <= b[k] && forall|j: int| 0 <= j < k ==> requested > b[j];
        assert(0 <= k < b.len());
    } else {
        assert(requested > b[2]);
    }
}

/// Waterfall FFT sizes the processor accepts: powers of two from 256 up to the burst length.
pub open spec fn valid_fft_size(size: usize) -> bool {
    size == 256 || size == 512 || size == 1024 || size == 2048 || size == 4096 || size == 8192
        || size == 16384
}

/// Whether a waterfall FFT size is a power of two within `[256, WATERFALL_DMA_SIZE]`.
pub fn is_valid_fft_size(size: usize) -> (r: bool)
    ensures
        r == valid_fft_size(size),
{
    let mut p: usize = 256;
    while p <= WATERFALL_DMA_SIZE
        invariant
            p == 256 || p == 512 || p == 1024 || p == 2048 || p == 4096 || p == 8192 || p == 16384
                || p == 32768,
            forall|q: usize| 256 <= q < p && valid_fft_size(q) ==> size != q,
        decreases 32768 - p,
    {
        if size == p {
            return true;
        }
        p = p * 2;
    }
    false
}

/// Session state of the control plane: the settings the user requested and the bookkeeping of
/// hardware reconfigurations still awaiting confirmation from the RX IO thread.
pub struct ControlPlane {
    pub is_running: bool,
    pub audio_enabled: bool,
    pub playback_hz: i64,
    pub demod_mode: DemodMode,
    pub waterfall_interval_ms: u64,
    pub visual_span_hz: i64,
    pub rx_gain_mode: GainMode,
    pub rf_bandwidth_hz: i64,
    pub tx_offset_hz: i64,
    pub iq_stream_enabled: bool,
    pub tx_active: bool,
    pub current_lo_hz: i64,
    pub current_fs_hz: i64,
    /// Reconfigurations sent to the RX IO thread and not yet confirmed.
    pub pending_configs: usize,
    /// Of those, the ones that also need the fabric DSP reset afterwards.
    pub pending_dsp_reset: usize,
    /// Whether the fabric and the audio path are marked as reconfiguring.
    pub configuring: bool,
    pub fft_size: usize,
}

/// One more pending reconfiguration (held at the maximum rather than wrapping).
pub open spec fn bump(n: usize) -> usize {
    if n < usize::MAX {
        (n + 1) as usize
    } else {
        n
    }
}

/// One fewer pending reconfiguration, not below zero.
pub open spec fn settle(n: usize) -> usize {
    if n > 0 {
        (n - 1) as usize
    } else {
        0
    }
}

/// The TX LO for a listening frequency: the TX DDS shifts the signal back up by this offset.
pub open spec fn tx_lo_for(playback_hz: i64) -> i64 {
    playback_hz.wrapping_sub(50_000)
}

impl ControlPlane {
    /// Reconfiguration bookkeeping: every pending DSP reset belongs to a pending
    /// reconfiguration, and the path is marked as reconfiguring exactly while one is pending.
    pub open spec fn wf(self) -> bool {
        &&& self.pending_dsp_reset <= self.pending_configs
        &&& self.configuring == (self.pending_configs > 0)
    }

    /// The session after the RX IO thread confirms the operating point `(lo_hz, fs_hz)`.
    pub open spec fn confirmed(self, lo_hz: i64, fs_hz: i64) -> ControlPlane {
        let pc = settle(self.pending_configs);
        let pd = settle(self.pending_dsp_reset);
        ControlPlane {
            current_lo_hz: lo_hz,
            current_fs_hz: fs_hz,
            pending_configs: pc,
            pending_dsp_reset: pd,
            configuring: self.configuring && !(pc == 0 && pd == 0),
            ..self
        }
    }

    /// The session after `n` confirmations of the same operating point.
    pub open spec fn confirmed_times(self, lo_hz: i64, fs_hz: i64, n: nat) -> ControlPlane
        decreases n,
    {
        if n == 0 {
            self
        } else {
            self.confirmed(lo_hz, fs_hz).confirmed_times(lo_hz, fs_hz, (n - 1) as nat)
        }
    }

    /// The retune action for the current session.
    pub open spec fn retune(self) -> ControlAction {
        ControlAction::RetuneAudio {
            playback_hz: self.playback_hz,
            lo_hz: self.current_lo_hz,
            fs_hz: self.current_fs_hz,
            mode: self.demod_mode,
        }
    }

    /// The config report for the current session.
    pub open spec fn config_report(self) -> ControlAction {
        ControlAction::ReportConfig {
            lo_hz: self.current_lo_hz,
            fs_hz: self.current_fs_hz,
            min_span_hz: min_span_for(self.demod_mode),
        }
    }

    /// The session at start-up: running, FM, audio off, nothing pending.
    pub fn new(initial_playback_hz: i64, initial_lo_hz: i64, initial_fs_hz: i64) -> (r: Self)
        ensures
            r.is_running,
            !r.audio_enabled,
            r.playback_hz == initial_playback_hz,
            r.demod_mode == DemodMode::FM,
            r.waterfall_interval_ms == 50,
            r.visual_span_hz == MIN_SPAN_FM,
            r.rx_gain_mode == GainMode::AgcSlow,
            r.rf_bandwidth_hz == 0,
            r.tx_offset_hz == DEFAULT_TX_OFFSET_HZ,
            !r.iq_stream_enabled,
            !r.tx_active,
            r.current_lo_hz == initial_lo_hz,
            r.current_fs_hz == initial_fs_hz,
            r.pending_configs == 0,
            r.pending_dsp_reset == 0,
            !r.configuring,
            r.fft_size == WATERFALL_FFT_SIZE,
            r.wf(),
    {
        ControlPlane {
            is_running: true,
            audio_enabled: false,
            playback_hz: initial_playback_hz,
            demod_mode: DemodMode::FM,
            waterfall_interval_ms: 50,
            visual_span_hz: MIN_SPAN_FM,
            rx_gain_mode: GainMode::AgcSlow,
            rf_bandwidth_hz: 0,
            tx_offset_hz: DEFAULT_TX_OFFSET_HZ,
            iq_stream_enabled: false,
            tx_active: false,
            current_lo_hz: initial_lo_hz,
            current_fs_hz: initial_fs_hz,
            pending_configs: 0,
            pending_dsp_reset: 0,
            configuring: false,
            fft_size: WATERFALL_FFT_SIZE,
        }
    }

    fn bump_configs(&mut self)
        ensures
            final(self).pending_configs == bump(old(self).pending_configs),
            final(self).pending_dsp_reset == old(self).pending_dsp_reset,
            final(self).configuring,
            final(self).is_running == old(self).is_running,
            final(self).audio_enabled == old(self).audio_enabled,
            final(self).playback_hz == old(self).playback_hz,
            final(self).demod_mode == old(self).demod_mode,
            final(self).waterfall_interval_ms == old(self).waterfall_interval_ms,
            final(self).visual_span_hz == old(self).visual_span_hz,
            final(self).rx_gain_mode == old(self).rx_gain_mode,
            final(self).rf_bandwidth_hz == old(self).rf_bandwidth_hz,
            final(self).tx_offset_hz == old(self).tx_offset_hz,
            final(self).iq_stream_enabled == old(self).iq_stream_enabled,
            final(self).tx_active == old(self).tx_active,
            final(self).current_lo_hz == old(self).current_lo_hz,
            final(self).current_fs_hz == old(self).current_fs_hz,
            final(self).fft_size == old(self).fft_size,
    {
        if self.pending_configs < usize::MAX {
            self.pending_configs = self.pending_configs + 1;
        }
        self.configuring = true;
    }

    fn bump_dsp_reset(&mut self)
        ensures
            *final(self) == (ControlPlane {
                pending_dsp_reset: bump(old(self).pending_dsp_reset),
                ..*old(self)
            }),
    {
        if self.pending_dsp_reset < usize::MAX {
            self.pending_dsp_reset = self.pending_dsp_reset + 1;
        }
    }

    /// `Start`: resumes the receive pipeline.
    pub fn start(&mut self) -> (acts: Vec<ControlAction>)
        ensures
            old(self).wf() ==> final(self).wf(),
            *final(self) == (ControlPlane { is_running: true, ..*old(self) }),
            acts@ == seq![ControlAction::SetRunning(true)],
    {
        self.is_running = true;
        vec![ControlAction::SetRunning(true)]
    }

    /// `Stop`: pauses the receive pipeline and unkeys the transmitter at the safe minimum gain.
    pub fn stop(&mut self) -> (acts: Vec<ControlAction>)
        ensures
            old(self).wf() ==> final(self).wf(),
            *final(self) == (ControlPlane { is_running: false, tx_active: false, ..*old(self) }),
            acts@ == seq![
                ControlAction::SetRunning(false),
                ControlAction::SetTxActive(false),
                ControlAction::Io(
                    IoRequest::SetTxState {
                        active: false,
                        safe_gain: true,
                        playback_hz: old(self).playback_hz,
                        rx_lo_hz: old(self).current_lo_hz,
                    },
                ),
            ],
    {
        self.is_running = false;
        self.tx_active = false;
        vec![
            ControlAction::SetRunning(false),
            ControlAction::SetTxActive(false),
            ControlAction::Io(
                IoRequest::SetTxState {
                    active: false,
                    safe_gain: true,
                    playback_hz: self.playback_hz,
                    rx_lo_hz: self.current_lo_hz,
                },
            ),
        ]
    }

    /// `SetRxFrequency`: moves the listening frequency; the TX LO follows it while keyed.
    pub fn set_rx_frequency(&mut self, hz: u64) -> (acts: Vec<ControlAction>)
        ensures
            old(self).wf() ==> final(self).wf(),
            *final(self) == (ControlPlane { playback_hz: hz as i64, ..*old(self) }),
            acts@ == seq![final(self).retune()] + if old(self).tx_active {
                seq![ControlAction::Io(IoRequest::SetTxPlaybackFrequency(hz as i64))]
            } else {
                Seq::empty()
            },
    {
        self.playback_hz = hz as i64;
        let mut acts = vec![
            ControlAction::RetuneAudio {
                playback_hz: self.playback_hz,
                lo_hz: self.current_lo_hz,
                fs_hz: self.current_fs_hz,
                mode: self.demod_mode,
            },
        ];
        if self.tx_active {
            acts.push(ControlAction::Io(IoRequest::SetTxPlaybackFrequency(self.playback_hz)));
        }
        acts
    }

    /// `SetRxCenterFrequency`: retunes the RX LO; the change is pending until confirmed.
    pub fn set_rx_center_frequency(&mut self, hz: u64) -> (acts: Vec<ControlAction>)
        ensures
            old(self).wf() ==> final(self).wf(),
            *final(self) == (ControlPlane {
                current_lo_hz: hz as i64,
                pending_configs: bump(old(self).pending_configs),
                configuring: true,
                ..*old(self)
            }),
            acts@ == seq![
                ControlAction::BeginReconfiguration,
                ControlAction::Io(IoRequest::SetCenterFrequency(hz as i64)),
            ],
    {
        self.current_lo_hz = hz as i64;
        self.bump_configs();
        vec![
            ControlAction::BeginReconfiguration,
            ControlAction::Io(IoRequest::SetCenterFrequency(self.current_lo_hz)),
        ]
    }

    /// `SetRxSpan`: requests the smallest supported span covering the requested one.
    pub fn set_rx_span(&mut self, center_hz: u64, span_hz: u64) -> (acts: Vec<ControlAction>)
        ensures
            old(self).wf() ==> final(self).wf(),
            *final(self) == (ControlPlane {
                visual_span_hz: span_hz as i64,
                pending_configs: bump(old(self).pending_configs),
                pending_dsp_reset: bump(old(self).pending_dsp_reset),
                configuring: true,
                ..*old(self)
            }),
            acts@ == seq![
                ControlAction::BeginReconfiguration,
                ControlAction::Io(
                    IoRequest::SetSpan {
                        center_hz: center_hz as i64,
                        span_hz: hardware_span(span_hz as i64, is_ssb(old(self).demod_mode)),
                    },
                ),
            ],
    {
        let requested = span_hz as i64;
        self.visual_span_hz = requested;
        let ssb = self.demod_mode == DemodMode::USB || self.demod_mode == DemodMode::LSB;
        let rounded = round_span(requested, ssb);
        self.bump_configs();
        self.bump_dsp_reset();
        vec![
            ControlAction::BeginReconfiguration,
            ControlAction::Io(IoRequest::SetSpan { center_hz: center_hz as i64, span_hz: rounded }),
        ]
    }

    /// `SetRxAudioEnabled`.
    pub fn set_rx_audio_enabled(&mut self, enabled: bool) -> (acts: Vec<ControlAction>)
        ensures
            old(self).wf() ==> final(self).wf(),
            *final(self) == (ControlPlane { audio_enabled: enabled, ..*old(self) }),
            acts@ == seq![ControlAction::SetAudioEnabled(enabled)],
    {
        self.audio_enabled = enabled;
        vec![ControlAction::SetAudioEnabled(enabled)]
    }

    /// `SetRxDemodulation`: selects the mode (unknown names select FM), widens the span to the
    /// mode's minimum when the current rate is below it, reports the operating point and
    /// retunes the demodulator.
    pub fn set_rx_demodulation(&mut self, mode: &str) -> (acts: Vec<ControlAction>)
        ensures
            old(self).wf() ==> final(self).wf(),
            ({
                let m = match demod_mode_from_name(mode@) {
                    Some(m) => m,
                    None => DemodMode::FM,
                };
                let widen = old(self).current_fs_hz < min_span_for(m);
                &&& *final(self) == (ControlPlane {
                    demod_mode: m,
                    pending_configs: if widen {
                        bump(old(self).pending_configs)
                    } else {
                        old(self).pending_configs
                    },
                    pending_dsp_reset: if widen {
                        bump(old(self).pending_dsp_reset)
                    } else {
                        old(self).pending_dsp_reset
                    },
                    configuring: widen || old(self).configuring,
                    ..*old(self)
                })
                &&& acts@ == if widen {
                    seq![
                        ControlAction::BeginReconfiguration,
                        ControlAction::Io(
                            IoRequest::SetSpan {
                                center_hz: old(self).current_lo_hz,
                                span_hz: min_span_for(m),
                            },
                        ),
                    ]
                } else {
                    Seq::empty()
                } + seq![final(self).config_report(), final(self).retune()]
            }),
    {
        self.demod_mode = match DemodMode::parse(mode) {
            Ok(m) => m,
            Err(_) => DemodMode::FM,
        };
        let min_span = get_min_span(self.demod_mode);
        let mut acts: Vec<ControlAction> = Vec::new();
        if self.current_fs_hz < min_span {
            self.bump_configs();
            self.bump_dsp_reset();
            acts.push(ControlAction::BeginReconfiguration);
            acts.push(
                ControlAction::Io(
                    IoRequest::SetSpan { center_hz: self.current_lo_hz, span_hz: min_span },
                ),
            );
        }
        acts.push(
            ControlAction::ReportConfig {
                lo_hz: self.current_lo_hz,
                fs_hz: self.current_fs_hz,
                min_span_hz: min_span,
            },
        );
        acts.push(
            ControlAction::RetuneAudio {
                playback_hz: self.playback_hz,
                lo_hz: self.current_lo_hz,
                fs_hz: self.current_fs_hz,
                mode: self.demod_mode,
            },
        );
        acts
    }

    /// `SetRxWaterfallInterval`.
    pub fn set_rx_waterfall_interval(&mut self, ms: u64)
        ensures
            old(self).wf() ==> final(self).wf(),
            *final(self) == (ControlPlane { waterfall_interval_ms: ms, ..*old(self) }),
    {
        self.waterfall_interval_ms = ms;
    }

    /// `SetRxIqStream`: opts in or out of the raw I/Q stream.
    pub fn set_rx_iq_stream(&mut self, enabled: bool)
        ensures
            old(self).wf() ==> final(self).wf(),
            *final(self) == (ControlPlane { iq_stream_enabled: enabled, ..*old(self) }),
    {
        self.iq_stream_enabled = enabled;
    }

    /// `SetRxAntenna`: switches the RX input; pending until confirmed, then the DSP is reset.
    pub fn set_rx_antenna(&mut self, antenna: u8) -> (acts: Vec<ControlAction>)
        ensures
            old(self).wf() ==> final(self).wf(),
            *final(self) == (ControlPlane {
                pending_configs: bump(old(self).pending_configs),
                pending_dsp_reset: bump(old(self).pending_dsp_reset),
                configuring: true,
                ..*old(self)
            }),
            acts@ == seq![
                ControlAction::BeginReconfiguration,
                ControlAction::Io(IoRequest::SetAntenna(antenna)),
            ],
    {
        self.bump_configs();
        self.bump_dsp_reset();
        vec![ControlAction::BeginReconfiguration, ControlAction::Io(IoRequest::SetAntenna(antenna))]
    }

    /// `SetTxState`: keys or unkeys the transmitter at the user's gain.
    pub fn set_tx_state(&mut self, active: bool) -> (acts: Vec<ControlAction>)
        ensures
            old(self).wf() ==> final(self).wf(),
            *final(self) == (ControlPlane { tx_active: active, ..*old(self) }),
            acts@ == seq![
                ControlAction::SetTxActive(active),
                ControlAction::Io(
                    IoRequest::SetTxState {
                        active: active,
                        safe_gain: false,
                        playback_hz: old(self).playback_hz,
                        rx_lo_hz: old(self).current_lo_hz,
                    },
                ),
            ],
    {
        self.tx_active = active;
        vec![
            ControlAction::SetTxActive(active),
            ControlAction::Io(
                IoRequest::SetTxState {
                    active,
                    safe_gain: false,
                    playback_hz: self.playback_hz,
                    rx_lo_hz: self.current_lo_hz,
                },
            ),
        ]
    }

    /// `SetTxModulation`: selects the sideband (unknown names select USB).
    pub fn set_tx_modulation(&self, mode: &str) -> (acts: Vec<ControlAction>)
        ensures
            acts@ == seq![ControlAction::SetTxMode(tx_mode_from_name(mode@))],
    {
        vec![ControlAction::SetTxMode(TxMode::from_name(mode))]
    }

    /// `SetTxOffset`: records the TX offset setting.
    pub fn set_tx_offset(&mut self, hz: i64)
        ensures
            old(self).wf() ==> final(self).wf(),
            *final(self) == (ControlPlane { tx_offset_hz: hz, ..*old(self) }),
    {
        self.tx_offset_hz = hz;
    }

    /// `SetRxGainMode`: records the mode (unknown names record slow AGC) and forwards the parsed
    /// mode, which the RX IO thread ignores when it is not a gain mode.
    pub fn set_rx_gain_mode(&mut self, mode: &str) -> (acts: Vec<ControlAction>)
        ensures
            old(self).wf() ==> final(self).wf(),
            *final(self) == (ControlPlane {
                rx_gain_mode: match crate::device::gain_mode_from_name(mode@) {
                    Some(m) => m,
                    None => GainMode::AgcSlow,
                },
                ..*old(self)
            }),
            acts@ == seq![
                ControlAction::Io(
                    IoRequest::SetRxGainMode(crate::device::gain_mode_from_name(mode@)),
                ),
            ],
    {
        let parsed = match GainMode::parse(mode) {
            Ok(m) => Some(m),
            Err(_) => None,
        };
        self.rx_gain_mode = match parsed {
            Some(m) => m,
            None => GainMode::AgcSlow,
        };
        vec![ControlAction::Io(IoRequest::SetRxGainMode(parsed))]
    }

    /// `SetRxRfBandwidth`.
    pub fn set_rx_rf_bandwidth(&mut self, bw_hz: i64) -> (acts: Vec<ControlAction>)
        ensures
            old(self).wf() ==> final(self).wf(),
            *final(self) == (ControlPlane { rf_bandwidth_hz: bw_hz, ..*old(self) }),
            acts@ == seq![ControlAction::Io(IoRequest::SetRfBandwidth(bw_hz))],
    {
        self.rf_bandwidth_hz = bw_hz;
        vec![ControlAction::Io(IoRequest::SetRfBandwidth(bw_hz))]
    }

    /// `SetRxWaterfallFftSize`: accepts powers of two within `[256, WATERFALL_DMA_SIZE]`; the
    /// processor is rebuilt only when the size changes.
    pub fn set_rx_waterfall_fft_size(&mut self, size: usize) -> (acts: Vec<ControlAction>)
        ensures
            old(self).wf() ==> final(self).wf(),
            valid_fft_size(size) ==> *final(self) == (ControlPlane { fft_size: size, ..*old(self) }),
            !valid_fft_size(size) ==> *final(self) == *old(self),
            acts@ == if !valid_fft_size(size) {
                seq![ControlAction::RejectWaterfallSize(size)]
            } else if size != old(self).fft_size {
                seq![ControlAction::ResizeWaterfall(size)]
            } else {
                Seq::empty()
            },
    {
        if is_valid_fft_size(size) {
            if size != self.fft_size {
                self.fft_size = size;
                vec![ControlAction::ResizeWaterfall(size)]
            } else {
                Vec::new()
            }
        } else {
            vec![ControlAction::RejectWaterfallSize(size)]
        }
    }

    /// `RequestSync`: reports the operating point and the settings.
    pub fn request_sync(&self) -> (acts: Vec<ControlAction>)
        ensures
            acts@ == seq![self.config_report(), ControlAction::ReportSettings],
    {
        let min_span = get_min_span(self.demod_mode);
        vec![
            ControlAction::ReportConfig {
                lo_hz: self.current_lo_hz,
                fs_hz: self.current_fs_hz,
                min_span_hz: min_span,
            },
            ControlAction::ReportSettings,
        ]
    }

    /// The RX IO thread confirmed an operating point: adopt it, settle one pending
    /// reconfiguration, and once nothing is pending finish the reconfiguration (fabric DSP,
    /// TX retune at the listening frequency's TX LO, audio DMA) and retune the demodulator.
    pub fn config_confirmed(&mut self, lo_hz: i64, fs_hz: i64) -> (acts: Vec<ControlAction>)
        ensures
            old(self).wf() ==> final(self).wf(),
            ({
                let pc = settle(old(self).pending_configs);
                let pd = settle(old(self).pending_dsp_reset);
                let done = pc == 0 && pd == 0;
                &&& *final(self) == old(self).confirmed(lo_hz, fs_hz)
                &&& acts@ == seq![
                    ControlAction::PublishRate(fs_hz),
                    ControlAction::ReportConfig {
                        lo_hz: lo_hz,
                        fs_hz: fs_hz,
                        min_span_hz: min_span_for(old(self).demod_mode),
                    },
                    ControlAction::FlushRxBacklog,
                ] + (if done {
                    seq![
                        ControlAction::CompleteReconfiguration {
                            fs_hz: fs_hz,
                            tx_lo_hz: tx_lo_for(old(self).playback_hz),
                        },
                    ]
                } else {
                    Seq::empty()
                }) + (if pc == 0 {
                    seq![final(self).retune()]
                } else {
                    Seq::empty()
                })
            }),
    {
        self.current_lo_hz = lo_hz;
        self.current_fs_hz = fs_hz;
        if self.pending_configs > 0 {
            self.pending_configs = self.pending_configs - 1;
        }
        if self.pending_dsp_reset > 0 {
            self.pending_dsp_reset = self.pending_dsp_reset - 1;
        }
        let min_span = get_min_span(self.demod_mode);
        let mut acts = vec![
            ControlAction::PublishRate(fs_hz),
            ControlAction::ReportConfig { lo_hz, fs_hz, min_span_hz: min_span },
            ControlAction::FlushRxBacklog,
        ];
        if self.pending_configs == 0 && self.pending_dsp_reset == 0 {
            acts.push(
                ControlAction::CompleteReconfiguration {
                    fs_hz,
                    tx_lo_hz: self.playback_hz.wrapping_sub(50_000),
                },
            );
            self.configuring = false;
        }
        if self.pending_configs == 0 {
            acts.push(
                ControlAction::RetuneAudio {
                    playback_hz: self.playback_hz,
                    lo_hz: self.current_lo_hz,
                    fs_hz: self.current_fs_hz,
                    mode: self.demod_mode,
                },
            );
        }
        acts
    }
}

/// Every reconfiguration request is settled by one confirmation: from any well-formed session,
/// once as many confirmations have arrived as reconfigurations were pending, nothing is pending
/// any more and the audio path is no longer marked as reconfiguring.
pub proof fn lemma_confirmations_settle(s: ControlPlane, lo_hz: i64, fs_hz: i64, n: nat)
    requires
        s.wf(),
        n >= s.pending_configs,
    ensures
        s.confirmed_times(lo_hz, fs_hz, n).wf(),
        s.confirmed_times(lo_hz, fs_hz, n).pending_configs == 0,
        s.confirmed_times(lo_hz, fs_hz, n).pending_dsp_reset == 0,
        !s.confirmed_times(lo_hz, fs_hz, n).configuring,
    decreases n,
{
    if n > 0 {
        lemma_confirmations_settle(s.confirmed(lo_hz, fs_hz), lo_hz, fs_hz, (n - 1) as nat);
    }
}

} // verus!
