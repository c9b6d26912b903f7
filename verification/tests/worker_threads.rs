use pluto::threads::audio::{audio_dma_rate, rx_tune_offset};
use pluto::threads::network::{
    classify_client_frame, frame_with_header, iq_stream_bytes, ClientFrame, FRAME_IQ,
    FRAME_RX_AUDIO, FRAME_TX_AUDIO, FRAME_WATERFALL,
};
use pluto::threads::rx_io::{RxIoState, TxIoRequest};
use pluto::threads::tx_dsp::{
    FeedStep, TxFeed, TxJitterBuffer, BLOCK, DEADBAND, MAX_DEPTH, SILENCE_PARK, TARGET_DEPTH,
};
use pluto::threads::tx_io::{TxHwAction, TxIoState};

#[test]
fn tx_follows_playback_only_when_keyed() {
    let mut s = RxIoState::new(3_840_000);
    assert!(s.follow_playback(7_100_000).is_empty());
    assert_eq!(s.current_tx_lo, 0);
    let reqs = s.set_tx_state(true, 7_100_000, 7_000_000);
    assert_eq!(
        reqs,
        vec![
            TxIoRequest::ApplyRequestedGain,
            TxIoRequest::SetTxFrequencies { lo_hz: 7_050_000, fs_hz: 3_840_000 },
            TxIoRequest::TxStart,
        ]
    );
    assert_eq!(
        s.follow_playback(7_200_000),
        vec![TxIoRequest::SetTxFrequencies { lo_hz: 7_150_000, fs_hz: 3_840_000 }]
    );
    assert_eq!(
        s.center_frequency_applied(),
        vec![TxIoRequest::SetTxFrequencies { lo_hz: 7_150_000, fs_hz: 3_840_000 }]
    );
    assert_eq!(
        s.span_applied(768_000),
        vec![TxIoRequest::SetTxFrequencies { lo_hz: 7_150_000, fs_hz: 768_000 }]
    );
    assert_eq!(
        s.set_tx_state(false, 7_200_000, 7_000_000),
        vec![
            TxIoRequest::SetTxFrequencies { lo_hz: 7_000_000, fs_hz: 768_000 },
            TxIoRequest::TxStop,
        ]
    );
    assert!(!s.is_tx_active);
    assert!(s.center_frequency_applied().is_empty());
    assert!(s.span_applied(3_840_000).is_empty());
    assert_eq!(s.actual_span, 3_840_000);
}

#[test]
fn tx_io_mutes_at_startup_and_when_unkeyed() {
    let (mut s, acts) = TxIoState::new();
    assert_eq!(acts, vec![TxHwAction::Mute]);
    assert!(s.muted && !s.should_stream());
    assert_eq!(s.tx_start(), vec![TxHwAction::ApplyDesiredGain, TxHwAction::InitChannels]);
    assert!(s.should_stream() && s.channels_live && !s.muted);
    assert_eq!(s.tx_stop(), vec![TxHwAction::Mute, TxHwAction::ReleaseChannels]);
    assert!(!s.should_stream() && s.muted && !s.channels_live);
    assert!(s.set_gain().is_empty());
    assert_eq!(s.shutdown(), vec![TxHwAction::Mute]);
}

#[test]
fn tx_io_reconfiguration_releases_and_restores_dma() {
    let (mut s, _) = TxIoState::new();
    s.tx_start();
    assert_eq!(s.configure_start(), vec![TxHwAction::Mute, TxHwAction::ReleaseChannels]);
    assert!(!s.should_stream() && !s.channels_live);
    // Keying during the change does not take the DMA yet.
    assert_eq!(s.tx_start(), vec![TxHwAction::ApplyDesiredGain]);
    assert!(!s.channels_live);
    assert_eq!(s.set_antenna(1), vec![TxHwAction::SelectAntenna(1), TxHwAction::Mute]);
    assert_eq!(s.configure_end(), vec![TxHwAction::ApplyDesiredGain, TxHwAction::InitChannels]);
    assert!(s.should_stream() && s.channels_live && !s.muted);
    assert_eq!(
        s.set_antenna(0),
        vec![
            TxHwAction::SelectAntenna(0),
            TxHwAction::ReleaseChannels,
            TxHwAction::ApplyDesiredGain,
            TxHwAction::InitChannels,
        ]
    );
    assert_eq!(s.set_gain(), vec![TxHwAction::ApplyDesiredGain]);
    assert_eq!(
        s.set_frequencies(144_000_000, 768_000),
        vec![TxHwAction::Retune { lo_hz: 144_000_000, fs_hz: 768_000 }]
    );
    s.tx_stop();
    s.configure_start();
    assert!(s.configure_end().is_empty());
    assert!(!s.channels_live && s.muted);
}

#[test]
fn jitter_buffer_trims_bursts_to_target() {
    let mut j: TxJitterBuffer<u32> = TxJitterBuffer::new();
    assert_eq!(j.push_chunk((0..10_000).collect()), 0);
    assert_eq!(j.buf.len(), 10_000);
    let dropped = j.push_chunk((10_000..17_000).collect());
    assert_eq!(dropped, 17_000 - TARGET_DEPTH);
    assert_eq!(j.buf.len(), TARGET_DEPTH);
    assert_eq!(j.buf.front(), Some(&(17_000 - TARGET_DEPTH as u32)));
    assert_eq!(j.buf.back(), Some(&16_999));
    assert_eq!(j.push_chunk((0..(MAX_DEPTH - TARGET_DEPTH) as u32).collect()), 0);
    assert_eq!(j.buf.len(), MAX_DEPTH);
    j.reset();
    assert!(j.buf.is_empty() && !j.primed);
}

#[test]
fn jitter_buffer_nudges_outside_deadband() {
    let mut j: TxJitterBuffer<u8> = TxJitterBuffer::new();
    j.push_chunk(vec![0; TARGET_DEPTH]);
    assert_eq!(j.nudge(), 0);
    j.push_chunk(vec![0; DEADBAND]);
    assert_eq!(j.nudge(), 0);
    j.push_chunk(vec![0; 1]);
    assert_eq!(j.nudge(), 1);
    let mut k: TxJitterBuffer<u8> = TxJitterBuffer::new();
    k.push_chunk(vec![0; TARGET_DEPTH - DEADBAND]);
    assert_eq!(k.nudge(), 0);
    let mut m: TxJitterBuffer<u8> = TxJitterBuffer::new();
    m.push_chunk(vec![0; TARGET_DEPTH - DEADBAND - 1]);
    assert_eq!(m.nudge(), -1);
}

#[test]
fn jitter_buffer_blocks_take_nudged_counts() {
    let mut j: TxJitterBuffer<u32> = TxJitterBuffer::new();
    j.push_chunk((0..2000).collect());
    let b = j.take_block(1);
    assert_eq!(b.len(), BLOCK + 1);
    assert_eq!(b[0], 0);
    assert_eq!(j.take_block(-1).len(), BLOCK - 1);
    assert_eq!(j.take_block(0).len(), BLOCK);
    let rest = j.take_block(0);
    assert_eq!(rest.len(), 2000 - (BLOCK + 1) - (BLOCK - 1) - BLOCK);
    assert_eq!(*rest.last().unwrap(), 1999);
    assert!(j.take_block(0).is_empty());
}

#[test]
fn feed_primes_before_sending_audio() {
    let mut f: TxFeed<u16> = TxFeed::new();
    assert!(!f.keying(true));
    assert!(f.accepts_input());
    f.jitter.push_chunk(vec![1; 1000]);
    assert!(matches!(f.next_step(), FeedStep::Silence));
    assert!(!f.jitter.primed);
    assert_eq!(f.jitter.prime_wait_samples, BLOCK);
    f.jitter.push_chunk(vec![2; TARGET_DEPTH]);
    match f.next_step() {
        FeedStep::Audio(b) => {
            assert_eq!(b.len(), BLOCK);
            assert_eq!(b[0], 1);
        }
        _ => panic!("expected audio"),
    }
    assert!(f.jitter.primed);
}

#[test]
fn feed_primes_after_waiting_long_enough() {
    let mut f: TxFeed<u16> = TxFeed::new();
    f.jitter.push_chunk(vec![1; 100]);
    let mut silences = 0;
    loop {
        match f.next_step() {
            FeedStep::Silence => silences += 1,
            FeedStep::Audio(b) => {
                assert_eq!(b.len(), 100);
                break;
            }
            _ => panic!("unexpected step"),
        }
    }
    assert_eq!(silences, (SILENCE_PARK - 1) / BLOCK);
}

#[test]
fn feed_parks_after_long_silence() {
    let mut f: TxFeed<u16> = TxFeed::new();
    let mut steps = 0;
    loop {
        steps += 1;
        match f.next_step() {
            FeedStep::Silence => {}
            FeedStep::Park => break,
            _ => panic!("unexpected step"),
        }
    }
    assert_eq!(steps, (SILENCE_PARK + BLOCK - 1) / BLOCK);
    assert_eq!(f.resume(vec![5; 10]), 0);
    assert_eq!(f.jitter.silence_run, 0);
    assert_eq!(f.jitter.buf.len(), 10);
}

#[test]
fn feed_drains_after_unkey_then_idles() {
    let mut f: TxFeed<u16> = TxFeed::new();
    f.jitter.push_chunk(vec![3; TARGET_DEPTH]);
    assert!(matches!(f.next_step(), FeedStep::Audio(_)));
    assert!(!f.keying(false));
    assert!(f.draining && !f.accepts_input());
    while !f.jitter.buf.is_empty() {
        assert!(!f.keying(false));
        assert!(matches!(f.next_step(), FeedStep::Audio(_)));
    }
    assert!(f.keying(false));
    assert!(!f.draining && !f.jitter.primed);
    // Unkeyed with nothing primed: idle at once, and buffered audio is discarded.
    f.jitter.push_chunk(vec![1; 10]);
    assert!(f.keying(false));
    assert!(f.jitter.buf.is_empty());
}

#[test]
fn client_frames_are_classified() {
    assert_eq!(classify_client_frame(&[2, 0]), ClientFrame::Short { len: 2 });
    assert_eq!(
        classify_client_frame(&[1, 0, 0, 0, 9]),
        ClientFrame::UnknownHeader { header: 1 }
    );
    assert_eq!(
        classify_client_frame(&[2, 0, 0, 1]),
        ClientFrame::UnknownHeader { header: 0x0100_0002 }
    );
    assert_eq!(
        classify_client_frame(&[2, 0, 0, 0, 1, 2, 3]),
        ClientFrame::RaggedAudio { payload_len: 3 }
    );
    assert_eq!(classify_client_frame(&[2, 0, 0, 0]), ClientFrame::TxAudio { samples: 0 });
    let mut msg = vec![2u8, 0, 0, 0];
    msg.extend_from_slice(&0.5f32.to_le_bytes());
    msg.extend_from_slice(&(-0.25f32).to_le_bytes());
    assert_eq!(classify_client_frame(&msg), ClientFrame::TxAudio { samples: 2 });
}

#[test]
fn frames_carry_header() {
    assert_eq!(FRAME_WATERFALL, 0);
    assert_eq!(FRAME_RX_AUDIO, 1);
    assert_eq!(FRAME_TX_AUDIO, 2);
    assert_eq!(FRAME_IQ, 3);
    assert_eq!(frame_with_header(FRAME_IQ, &[9, 8]), vec![3, 0, 0, 0, 9, 8]);
    assert_eq!(frame_with_header(FRAME_WATERFALL, &[]), vec![0, 0, 0, 0]);
    let framed = frame_with_header(FRAME_TX_AUDIO, &[0; 8]);
    assert_eq!(classify_client_frame(&framed), ClientFrame::TxAudio { samples: 2 });
}

#[test]
fn iq_stream_interleaves_little_endian() {
    let bytes = iq_stream_bytes(&[1, -2, 300], &[-1, 0x1234]);
    assert_eq!(bytes, vec![1, 0, 0xFF, 0xFF, 0xFE, 0xFF, 0x34, 0x12]);
    let i = [i16::MIN, 7];
    let q = [i16::MAX, -7];
    let b = iq_stream_bytes(&i, &q);
    for k in 0..2 {
        assert_eq!(i16::from_le_bytes([b[4 * k], b[4 * k + 1]]), i[k]);
        assert_eq!(i16::from_le_bytes([b[4 * k + 2], b[4 * k + 3]]), q[k]);
    }
}

#[test]
fn dds_offset_is_clamped_to_nyquist() {
    assert_eq!(rx_tune_offset(100_050_000, 100_000_000, 3_840_000), 50_000);
    assert_eq!(rx_tune_offset(103_000_000, 100_000_000, 3_840_000), 1_920_000);
    assert_eq!(rx_tune_offset(97_000_000, 100_000_000, 3_840_000), -1_920_000);
    assert_eq!(rx_tune_offset(5, 0, 7), 3);
    assert_eq!(rx_tune_offset(-5, 0, 7), -3);
    assert_eq!(rx_tune_offset(5, 0, -1), 0);
}

#[test]
fn audio_dma_rate_divides_by_cic_and_four() {
    assert_eq!(audio_dma_rate(3_840_000, 4), 240_000);
    assert_eq!(audio_dma_rate(768_000, 4), 48_000);
    assert_eq!(audio_dma_rate(30_720_000, 32), 240_000);
    assert_eq!(audio_dma_rate(1_000_003, 4), 62_500);
    assert_eq!(audio_dma_rate(-100, 3), -8);
}

use pluto::threads::audio::{
    audio_block_step, audio_chunk_ready, audio_gate, AudioBlock, AudioGate, AUDIO_CHUNK, STALL_SECS,
};
use pluto::threads::rx_io::RxIoCommand;

fn full_requests(s: &mut RxIoState, cmd: RxIoCommand, applied: Option<i64>) -> Vec<TxIoRequest> {
    let mut reqs = s.begin_command(cmd);
    reqs.extend(s.finish_command(cmd, applied));
    reqs
}

#[test]
fn keying_is_bracketed_by_a_tx_pause() {
    let mut s = RxIoState::new(3_840_000);
    let reqs = full_requests(
        &mut s,
        RxIoCommand::SetTxState { active: true, playback_hz: 7_100_000, rx_lo_hz: 7_000_000 },
        None,
    );
    assert_eq!(
        reqs,
        vec![
            TxIoRequest::ConfigureStart,
            TxIoRequest::ApplyRequestedGain,
            TxIoRequest::SetTxFrequencies { lo_hz: 7_050_000, fs_hz: 3_840_000 },
            TxIoRequest::TxStart,
            TxIoRequest::ConfigureEnd,
        ]
    );
    assert!(s.is_tx_active);
}

#[test]
fn receiver_commands_are_bracketed() {
    let mut s = RxIoState::new(3_840_000);
    s.set_tx_state(true, 7_100_000, 7_000_000);
    assert_eq!(
        full_requests(&mut s, RxIoCommand::SetSpan { center_hz: 7_000_000, span_hz: 768_000 }, Some(768_000)),
        vec![
            TxIoRequest::ConfigureStart,
            TxIoRequest::SetTxFrequencies { lo_hz: 7_050_000, fs_hz: 768_000 },
            TxIoRequest::ConfigureEnd,
        ]
    );
    assert_eq!(s.actual_span, 768_000);
    assert_eq!(
        full_requests(&mut s, RxIoCommand::SetSpan { center_hz: 0, span_hz: 1 }, None),
        vec![TxIoRequest::ConfigureStart, TxIoRequest::ConfigureEnd]
    );
    assert_eq!(s.actual_span, 768_000);
    assert_eq!(
        full_requests(&mut s, RxIoCommand::SetCenterFrequency(7_200_000), Some(768_000)),
        vec![
            TxIoRequest::ConfigureStart,
            TxIoRequest::SetTxFrequencies { lo_hz: 7_050_000, fs_hz: 768_000 },
            TxIoRequest::ConfigureEnd,
        ]
    );
    assert_eq!(
        full_requests(&mut s, RxIoCommand::SetAntenna(1), None),
        vec![TxIoRequest::ConfigureStart, TxIoRequest::SetAntenna(1), TxIoRequest::ConfigureEnd]
    );
    assert_eq!(
        full_requests(&mut s, RxIoCommand::ForwardTxGain, None),
        vec![TxIoRequest::ConfigureStart, TxIoRequest::ApplyRequestedGain, TxIoRequest::ConfigureEnd]
    );
    assert_eq!(
        full_requests(&mut s, RxIoCommand::ReceiverSetting, None),
        vec![TxIoRequest::ConfigureStart, TxIoRequest::ConfigureEnd]
    );
    assert!(RxIoCommand::ReceiverSetting.is_paused());
}

#[test]
fn playback_follow_is_not_paused() {
    let mut s = RxIoState::new(3_840_000);
    assert!(!RxIoCommand::FollowPlayback(1).is_paused());
    assert!(full_requests(&mut s, RxIoCommand::FollowPlayback(7_100_000), None).is_empty());
    s.set_tx_state(true, 7_100_000, 7_000_000);
    assert_eq!(
        full_requests(&mut s, RxIoCommand::FollowPlayback(7_300_000), Some(1)),
        vec![TxIoRequest::SetTxFrequencies { lo_hz: 7_250_000, fs_hz: 3_840_000 }]
    );
    assert_eq!(s.current_tx_lo, 7_250_000);
}

#[test]
fn audio_loop_steps() {
    assert_eq!(audio_gate(false, true), AudioGate::Paused);
    assert_eq!(audio_gate(false, false), AudioGate::Paused);
    assert_eq!(audio_gate(true, false), AudioGate::Disabled);
    assert_eq!(audio_gate(true, true), AudioGate::Open);
    assert_eq!(audio_block_step(16384, true, 0, false), AudioBlock::Discard);
    assert_eq!(audio_block_step(16384, false, 9, true), AudioBlock::Demodulate);
    assert_eq!(audio_block_step(0, false, STALL_SECS, false), AudioBlock::Wait);
    assert_eq!(audio_block_step(0, false, STALL_SECS + 1, false), AudioBlock::RecoverStall);
    assert_eq!(audio_block_step(0, true, STALL_SECS + 1, true), AudioBlock::RestartWatch);
    assert!(!audio_chunk_ready(AUDIO_CHUNK - 1));
    assert!(audio_chunk_ready(AUDIO_CHUNK));
    assert_eq!(AUDIO_CHUNK, 4096);
}
