use pluto::device::GainMode;
use pluto::dsp::tx::TxMode;
use pluto::state::DemodMode;
use pluto::threads::control::{is_valid_fft_size, round_span, ControlAction, ControlPlane, IoRequest};
use pluto::{MAX_SPAN, MIN_SPAN_FM, MIN_SPAN_SSB, WATERFALL_FFT_SIZE};

fn session() -> ControlPlane {
    ControlPlane::new(100_050_000, 100_000_000, 3_840_000)
}

#[test]
fn span_rounds_up_to_supported_step() {
    assert_eq!(round_span(100_000, true), 768_000);
    assert_eq!(round_span(768_000, true), 768_000);
    assert_eq!(round_span(768_001, true), 1_536_000);
    assert_eq!(round_span(2_000_000, true), 3_840_000);
    assert_eq!(round_span(10_000_000, true), 15_360_000);
    assert_eq!(round_span(20_000_000, true), MAX_SPAN);
    assert_eq!(round_span(100_000, false), 3_840_000);
    assert_eq!(round_span(5_000_000, false), 7_680_000);
    assert_eq!(round_span(15_360_000, false), 15_360_000);
    assert_eq!(round_span(15_360_001, false), MAX_SPAN);
    assert_eq!(round_span(-5, false), 3_840_000);
}

#[test]
fn fft_sizes_are_powers_of_two_in_range() {
    for s in [256usize, 512, 1024, 2048, 4096, 8192, 16384] {
        assert!(is_valid_fft_size(s));
    }
    for s in [0usize, 4, 128, 1000, 3000, 32768, 65536] {
        assert!(!is_valid_fft_size(s));
    }
}

#[test]
fn new_session_defaults() {
    let c = session();
    assert!(c.is_running);
    assert!(!c.audio_enabled);
    assert_eq!(c.demod_mode, DemodMode::FM);
    assert_eq!(c.waterfall_interval_ms, 50);
    assert_eq!(c.visual_span_hz, MIN_SPAN_FM);
    assert_eq!(c.rx_gain_mode, GainMode::AgcSlow);
    assert_eq!(c.tx_offset_hz, 50_000);
    assert_eq!(c.fft_size, WATERFALL_FFT_SIZE);
    assert_eq!(c.pending_configs, 0);
    assert!(!c.configuring);
}

#[test]
fn start_and_stop() {
    let mut c = session();
    c.set_tx_state(true);
    let acts = c.stop();
    assert!(!c.is_running && !c.tx_active);
    assert_eq!(
        acts,
        vec![
            ControlAction::SetRunning(false),
            ControlAction::SetTxActive(false),
            ControlAction::Io(IoRequest::SetTxState {
                active: false,
                safe_gain: true,
                playback_hz: 100_050_000,
                rx_lo_hz: 100_000_000,
            }),
        ]
    );
    assert_eq!(c.start(), vec![ControlAction::SetRunning(true)]);
    assert!(c.is_running);
}

#[test]
fn frequency_change_retunes_and_tx_follows_when_keyed() {
    let mut c = session();
    let retune = |p: i64| ControlAction::RetuneAudio {
        playback_hz: p,
        lo_hz: 100_000_000,
        fs_hz: 3_840_000,
        mode: DemodMode::FM,
    };
    assert_eq!(c.set_rx_frequency(100_100_000), vec![retune(100_100_000)]);
    c.set_tx_state(true);
    assert_eq!(
        c.set_rx_frequency(100_200_000),
        vec![
            retune(100_200_000),
            ControlAction::Io(IoRequest::SetTxPlaybackFrequency(100_200_000)),
        ]
    );
    assert_eq!(c.playback_hz, 100_200_000);
}

#[test]
fn center_frequency_change_is_pending_until_confirmed() {
    let mut c = session();
    let acts = c.set_rx_center_frequency(145_000_000);
    assert_eq!(
        acts,
        vec![
            ControlAction::BeginReconfiguration,
            ControlAction::Io(IoRequest::SetCenterFrequency(145_000_000)),
        ]
    );
    assert_eq!(c.pending_configs, 1);
    assert_eq!(c.pending_dsp_reset, 0);
    assert!(c.configuring);

    let acts = c.config_confirmed(145_000_000, 3_840_000);
    assert_eq!(
        acts,
        vec![
            ControlAction::PublishRate(3_840_000),
            ControlAction::ReportConfig {
                lo_hz: 145_000_000,
                fs_hz: 3_840_000,
                min_span_hz: MIN_SPAN_FM,
            },
            ControlAction::FlushRxBacklog,
            ControlAction::CompleteReconfiguration { fs_hz: 3_840_000, tx_lo_hz: 100_000_000 },
            ControlAction::RetuneAudio {
                playback_hz: 100_050_000,
                lo_hz: 145_000_000,
                fs_hz: 3_840_000,
                mode: DemodMode::FM,
            },
        ]
    );
    assert_eq!(c.pending_configs, 0);
    assert!(!c.configuring);
}

#[test]
fn reconfiguration_completes_after_last_confirmation() {
    let mut c = session();
    let acts = c.set_rx_span(100_000_000, 5_000_000);
    assert_eq!(
        acts[1],
        ControlAction::Io(IoRequest::SetSpan { center_hz: 100_000_000, span_hz: 7_680_000 })
    );
    assert_eq!(c.visual_span_hz, 5_000_000);
    c.set_rx_center_frequency(101_000_000);
    assert_eq!((c.pending_configs, c.pending_dsp_reset), (2, 1));

    let first = c.config_confirmed(100_000_000, 7_680_000);
    assert_eq!(first.len(), 3);
    assert!(c.configuring);
    assert_eq!((c.pending_configs, c.pending_dsp_reset), (1, 0));

    let second = c.config_confirmed(101_000_000, 7_680_000);
    assert_eq!(second.len(), 5);
    assert_eq!(
        second[3],
        ControlAction::CompleteReconfiguration { fs_hz: 7_680_000, tx_lo_hz: 100_000_000 }
    );
    assert!(!c.configuring);
    assert_eq!((c.current_lo_hz, c.current_fs_hz), (101_000_000, 7_680_000));
}

#[test]
fn unsolicited_confirmation_keeps_counts_at_zero() {
    let mut c = session();
    let acts = c.config_confirmed(100_000_000, 3_840_000);
    assert_eq!(acts.len(), 5);
    assert_eq!((c.pending_configs, c.pending_dsp_reset), (0, 0));
    assert!(!c.configuring);
}

#[test]
fn ssb_span_uses_ssb_steps() {
    let mut c = session();
    c.set_rx_demodulation("USB");
    let acts = c.set_rx_span(100_000_000, 1_000_000);
    assert_eq!(
        acts[1],
        ControlAction::Io(IoRequest::SetSpan { center_hz: 100_000_000, span_hz: 1_536_000 })
    );
}

#[test]
fn demodulation_change_widens_span_when_needed() {
    let mut c = ControlPlane::new(7_100_000, 7_000_000, 768_000);
    c.demod_mode = DemodMode::LSB;
    let acts = c.set_rx_demodulation("FM");
    assert_eq!(
        acts,
        vec![
            ControlAction::BeginReconfiguration,
            ControlAction::Io(IoRequest::SetSpan { center_hz: 7_000_000, span_hz: MIN_SPAN_FM }),
            ControlAction::ReportConfig { lo_hz: 7_000_000, fs_hz: 768_000, min_span_hz: MIN_SPAN_FM },
            ControlAction::RetuneAudio {
                playback_hz: 7_100_000,
                lo_hz: 7_000_000,
                fs_hz: 768_000,
                mode: DemodMode::FM,
            },
        ]
    );
    assert_eq!((c.pending_configs, c.pending_dsp_reset), (1, 1));

    let mut d = session();
    let acts = d.set_rx_demodulation("USB");
    assert_eq!(d.demod_mode, DemodMode::USB);
    assert_eq!(
        acts[0],
        ControlAction::ReportConfig { lo_hz: 100_000_000, fs_hz: 3_840_000, min_span_hz: MIN_SPAN_SSB }
    );
    assert_eq!(acts.len(), 2);
    d.set_rx_demodulation("CW");
    assert_eq!(d.demod_mode, DemodMode::FM);
}

#[test]
fn simple_settings() {
    let mut c = session();
    assert_eq!(c.set_rx_audio_enabled(true), vec![ControlAction::SetAudioEnabled(true)]);
    assert!(c.audio_enabled);
    c.set_rx_waterfall_interval(120);
    assert_eq!(c.waterfall_interval_ms, 120);
    c.set_rx_iq_stream(true);
    assert!(c.iq_stream_enabled);
    c.set_tx_offset(25_000);
    assert_eq!(c.tx_offset_hz, 25_000);
    assert_eq!(c.set_rx_rf_bandwidth(200_000), vec![ControlAction::Io(IoRequest::SetRfBandwidth(200_000))]);
    assert_eq!(c.rf_bandwidth_hz, 200_000);
    assert_eq!(
        c.set_rx_antenna(1),
        vec![ControlAction::BeginReconfiguration, ControlAction::Io(IoRequest::SetAntenna(1))]
    );
    assert_eq!((c.pending_configs, c.pending_dsp_reset), (1, 1));
}

#[test]
fn tx_keying_and_modulation() {
    let mut c = session();
    assert_eq!(
        c.set_tx_state(true),
        vec![
            ControlAction::SetTxActive(true),
            ControlAction::Io(IoRequest::SetTxState {
                active: true,
                safe_gain: false,
                playback_hz: 100_050_000,
                rx_lo_hz: 100_000_000,
            }),
        ]
    );
    assert!(c.tx_active);
    assert_eq!(c.set_tx_modulation("LSB"), vec![ControlAction::SetTxMode(TxMode::LSB)]);
    assert_eq!(c.set_tx_modulation("USB"), vec![ControlAction::SetTxMode(TxMode::USB)]);
    assert_eq!(c.set_tx_modulation("AM"), vec![ControlAction::SetTxMode(TxMode::USB)]);
    assert_eq!(TxMode::from_name("LSB"), TxMode::LSB);
    assert_eq!(TxMode::from_name("lsb"), TxMode::USB);
}

#[test]
fn gain_mode_is_recorded_and_forwarded() {
    let mut c = session();
    assert_eq!(
        c.set_rx_gain_mode("manual"),
        vec![ControlAction::Io(IoRequest::SetRxGainMode(Some(GainMode::Manual)))]
    );
    assert_eq!(c.rx_gain_mode, GainMode::Manual);
    assert_eq!(
        c.set_rx_gain_mode("turbo"),
        vec![ControlAction::Io(IoRequest::SetRxGainMode(None))]
    );
    assert_eq!(c.rx_gain_mode, GainMode::AgcSlow);
}

#[test]
fn waterfall_fft_size_changes() {
    let mut c = session();
    assert_eq!(c.set_rx_waterfall_fft_size(4096), vec![ControlAction::ResizeWaterfall(4096)]);
    assert_eq!(c.fft_size, 4096);
    assert!(c.set_rx_waterfall_fft_size(4096).is_empty());
    assert_eq!(c.set_rx_waterfall_fft_size(3000), vec![ControlAction::RejectWaterfallSize(3000)]);
    assert_eq!(c.fft_size, 4096);
}

#[test]
fn sync_reports_config_and_settings() {
    let c = session();
    assert_eq!(
        c.request_sync(),
        vec![
            ControlAction::ReportConfig {
                lo_hz: 100_000_000,
                fs_hz: 3_840_000,
                min_span_hz: MIN_SPAN_FM,
            },
            ControlAction::ReportSettings,
        ]
    );
}
