use pluto::device::{
    check_antenna, dma_transfer_ops, fir_config_text, fir_needs_rate_bump, needs_internal_fir,
    rx_cic_decimation_for_rate, stream_channel_names, tx_path_rates_need_bump, unpack_iq_words,
    FabricShadow, RegisterBlock, RegisterOp, TxAccumulator, AD9361_MIN_FS_NO_FIR, DMA_PAGE_BYTES,
    FIR_128_4, RAM_PHYS_ADDR,
};

fn rx(offset: usize, value: u32) -> RegisterOp {
    RegisterOp::Write { block: RegisterBlock::GpioRx, offset, value }
}

fn tx(offset: usize, value: u32) -> RegisterOp {
    RegisterOp::Write { block: RegisterBlock::GpioTx, offset, value }
}

fn dma(offset: usize, value: u32) -> RegisterOp {
    RegisterOp::Write { block: RegisterBlock::Dma, offset, value }
}

#[test]
fn unpack_splits_low_i_high_q() {
    let mut i = vec![7i16];
    let mut q = vec![-7i16];
    unpack_iq_words(&[0xFFFE_0001, 0x8000_7FFF, 0], &mut i, &mut q);
    assert_eq!(i, vec![7, 1, 32767, 0]);
    assert_eq!(q, vec![-7, -2, -32768, 0]);
}

#[test]
fn unpack_round_trips_packed_samples() {
    let samples: [(i16, i16); 4] = [(0, 0), (-1, 1), (i16::MIN, i16::MAX), (1234, -4321)];
    let words: Vec<u32> = samples
        .iter()
        .map(|&(i, q)| ((q as u16 as u32) << 16) | (i as u16 as u32))
        .collect();
    let mut i = Vec::new();
    let mut q = Vec::new();
    unpack_iq_words(&words, &mut i, &mut q);
    for (k, &(si, sq)) in samples.iter().enumerate() {
        assert_eq!((i[k], q[k]), (si, sq));
    }
}

#[test]
fn cic_decimation_is_clamped_power_of_two() {
    assert_eq!(rx_cic_decimation_for_rate(768_000), 4);
    assert_eq!(rx_cic_decimation_for_rate(3_840_000), 4);
    assert_eq!(rx_cic_decimation_for_rate(7_680_000), 8);
    assert_eq!(rx_cic_decimation_for_rate(5_000_000), 8);
    assert_eq!(rx_cic_decimation_for_rate(15_360_000), 16);
    assert_eq!(rx_cic_decimation_for_rate(30_720_000), 32);
    assert_eq!(rx_cic_decimation_for_rate(61_440_000), 64);
    assert_eq!(rx_cic_decimation_for_rate(1_000_000_000), 64);
    assert_eq!(rx_cic_decimation_for_rate(0), 4);
    assert_eq!(rx_cic_decimation_for_rate(-960_000), 4);
}

#[test]
fn shadow_power_on_words() {
    let s = FabricShadow::new();
    assert_eq!(s.rx_base_val(), 0b101);
    assert_eq!(s.tx_base_val(), 1 | (4 << 4));
    assert!(!s.dma_running);
}

#[test]
fn rx_apply_dsp_config_sequence() {
    let mut s = FabricShadow::new();
    let ops = s.rx_apply_dsp_config(1, 3_840_000);
    let word = (4u32 << 4) | 1 | (1 << 2) | (1 << 13);
    assert_eq!(s.rx_cic_decimation, 4);
    assert_eq!(s.rx_antenna, 1);
    assert_eq!(s.rx_base_val(), word);
    assert_eq!(
        ops,
        vec![
            RegisterOp::Write { block: RegisterBlock::Ad9361, offset: 0x40, value: 3 },
            rx(0x04, 0),
            rx(0x0C, 0),
            rx(0, 1 << 13),
            RegisterOp::PauseMicros(10_000),
            rx(0, word),
            rx(0, word | 8),
            RegisterOp::PauseMicros(10),
            rx(0, word),
        ]
    );
}

#[test]
fn rx_gpio_updates() {
    let mut s = FabricShadow::new();
    s.rx_apply_dsp_config(0, 30_720_000);
    let gated = (32u32 << 4) | 1 | (1 << 2);
    assert_eq!(s.set_rx_burst_gate_enabled(false), vec![rx(0, (32 << 4) | 1)]);
    assert_eq!(s.set_rx_burst_gate_enabled(true), vec![rx(0, gated)]);
    assert_eq!(s.rx_update_gpio_antenna(1), vec![rx(0, gated | (1 << 13))]);
    let w = gated | (1 << 13);
    assert_eq!(
        s.trigger_waterfall_burst(),
        vec![rx(0, w | 2), RegisterOp::PauseMicros(10), rx(0, w)]
    );
    assert_eq!(
        s.rx_set_dds(0xFFF0_0000),
        vec![rx(0x08, 0xFFF0_0000), rx(0, w | 0x1000), RegisterOp::PauseMicros(10), rx(0, w)]
    );
}

#[test]
fn tx_gpio_updates() {
    let mut s = FabricShadow::new();
    let ops = s.tx_apply_rates(1, 8, 32768);
    let w = 1 | (1 << 1) | (8 << 4) | (32768u32 << 12);
    assert_eq!(s.tx_base_val(), w);
    assert_eq!(
        ops,
        vec![
            tx(0x04, 0),
            tx(0, w),
            RegisterOp::PauseMicros(10),
            tx(0, w | 8),
            RegisterOp::PauseMicros(10),
            tx(0, w),
        ]
    );
    assert_eq!(
        s.tx_set_dds(123),
        vec![tx(0x08, 123), tx(0, w | 4), RegisterOp::PauseMicros(10), tx(0, w)]
    );
    assert_eq!(s.set_tx_dsp_enabled(false), vec![tx(0, w & !1)]);
    assert_eq!(s.tx_update_gpio_antenna(0), vec![tx(0, (w & !1) & !2)]);
}

#[test]
fn tx_word_never_presents_cic_below_four() {
    let mut s = FabricShadow::new();
    s.tx_apply_rates(0, 0, 0);
    assert_eq!(s.tx_base_val(), 1 | (4 << 4));
    s.tx_apply_rates(0, 2, 0);
    assert_eq!(s.tx_base_val(), 1 | (4 << 4));
}

#[test]
fn gpio_reset_and_dma_reset() {
    let mut s = FabricShadow::new();
    assert_eq!(s.reset_gpio_to_default(), vec![rx(0x08, 0), rx(0, 0), tx(0x08, 0), tx(0, 0)]);
    s.dma_started();
    s.dma_page_consumed();
    let ops = s.reset_audio_dma_controller();
    assert!(!s.dma_running);
    assert!(!s.ping_pong);
    assert_eq!(
        ops,
        vec![
            dma(0x400, 0),
            RegisterOp::PauseMicros(10),
            dma(0x400, 1),
            dma(0x84, 0xFFFF_FFFF),
            dma(0x80, 1),
        ]
    );
}

#[test]
fn dma_pages_alternate() {
    let mut s = FabricShadow::new();
    assert_eq!(s.dma_read_page(), None);
    assert_eq!(s.dma_start_pages(), Some((0, DMA_PAGE_BYTES)));
    s.dma_started();
    assert_eq!(s.dma_start_pages(), None);
    assert_eq!(s.dma_read_page(), Some(0));
    s.dma_page_consumed();
    assert_eq!(s.dma_read_page(), Some(DMA_PAGE_BYTES));
    s.dma_page_consumed();
    assert_eq!(s.dma_read_page(), Some(0));
    s.dma_page_consumed();
    s.reset_audio_dma_controller();
    assert_eq!(s.dma_start_pages(), Some((0, DMA_PAGE_BYTES)));
}

#[test]
fn dma_transfer_descriptor() {
    assert_eq!(
        dma_transfer_ops(DMA_PAGE_BYTES),
        vec![dma(0x410, RAM_PHYS_ADDR + 65536), dma(0x418, 65535), dma(0x408, 1)]
    );
    assert_eq!(dma_transfer_ops(0)[0], dma(0x410, 0x1FC0_0000));
}

#[test]
fn stream_channels_per_antenna() {
    assert_eq!(stream_channel_names(0), ("voltage0", "voltage1"));
    assert_eq!(stream_channel_names(1), ("voltage2", "voltage3"));
    assert_eq!(stream_channel_names(7), ("voltage0", "voltage1"));
}

#[test]
fn antenna_check_rejects_other_ports() {
    assert_eq!(check_antenna(0), Ok(()));
    assert_eq!(check_antenna(1), Ok(()));
    assert_eq!(
        check_antenna(2),
        Err("Invalid settings: antenna has to be 0 or 1, was 2".to_string())
    );
    assert_eq!(
        check_antenna(255),
        Err("Invalid settings: antenna has to be 0 or 1, was 255".to_string())
    );
}

#[test]
fn internal_fir_below_floor() {
    assert!(needs_internal_fir(768_000));
    assert!(needs_internal_fir(AD9361_MIN_FS_NO_FIR - 1));
    assert!(!needs_internal_fir(AD9361_MIN_FS_NO_FIR));
    assert!(!needs_internal_fir(3_840_000));
}

#[test]
fn fir_config_text_matches_libad9361_layout() {
    let mut expected = String::from("RX 3 GAIN -6 DEC 4\nTX 3 GAIN 0 INT 4\n");
    for &c in FIR_128_4.iter() {
        expected.push_str(&format!("{},{}\n", c, c));
    }
    expected.push('\n');
    assert_eq!(fir_config_text(&FIR_128_4), expected);
    assert_eq!(fir_config_text(&[-1, 2]), "RX 3 GAIN -6 DEC 4\nTX 3 GAIN 0 INT 4\n-1,-1\n2,2\n\n");
}

#[test]
fn rate_bump_from_dac_ratio() {
    assert!(fir_needs_rate_bump(Some(12_000_000), Some(3_000_000), 128));
    assert!(!fir_needs_rate_bump(Some(24_000_000), Some(3_000_000), 128));
    assert!(!fir_needs_rate_bump(Some(12_000_000), Some(0), 128));
    assert!(!fir_needs_rate_bump(None, Some(3_000_000), 128));
    assert!(!fir_needs_rate_bump(Some(12_000_000), None, 128));
    assert!(fir_needs_rate_bump(Some(-12_000_000), Some(3_000_000), 128));
}

#[test]
fn rate_bump_from_path_rates_report() {
    let low = "BBPLL:1024000000 ADC:48000000 R2:24000000 R1:12000000 RF:6000000 RXSAMP:1500000 \
               BBPLL:1024000000 DAC:12000000 T2:12000000 T1:6000000 TF:3000000 TXSAMP:3000000";
    assert!(tx_path_rates_need_bump(low, 128));
    let high = "BBPLL:983040000 DAC:24000000 T2:12000000 T1:6000000 TF:3000000 TXSAMP:3000000";
    assert!(!tx_path_rates_need_bump(high, 128));
    assert!(!tx_path_rates_need_bump("DAC:12000000", 128));
    assert!(!tx_path_rates_need_bump("", 128));
}

#[test]
fn accumulator_fills_to_buffer_size() {
    let mut acc = TxAccumulator::new(4);
    assert_eq!(acc.fill(&[1, 2, 3], &[4, 5, 6, 7]), 3);
    assert!(!acc.is_full());
    assert_eq!(acc.fill(&[8, 9], &[10, 11]), 1);
    assert!(acc.is_full());
    assert_eq!(acc.acc_i, vec![1, 2, 3, 8]);
    assert_eq!(acc.acc_q, vec![4, 5, 6, 10]);
    assert_eq!(acc.fill(&[1], &[1]), 0);
    acc.clear();
    assert!(acc.acc_i.is_empty() && acc.acc_q.is_empty());
    assert_eq!(acc.fill(&[1, 2], &[3, 4]), 2);
    assert!(!acc.is_full());
}

#[test]
fn accumulator_hands_out_full_buffers() {
    let mut acc = TxAccumulator::new(3);
    acc.fill(&[1], &[-1]);
    let bufs = acc.take_buffers(&[2, 3, 4, 5, 6, 7, 8], &[-2, -3, -4, -5, -6, -7, -8, -9]);
    assert_eq!(
        bufs,
        vec![(vec![1, 2, 3], vec![-1, -2, -3]), (vec![4, 5, 6], vec![-4, -5, -6])]
    );
    assert_eq!(acc.acc_i, vec![7, 8]);
    assert_eq!(acc.acc_q, vec![-7, -8]);
    assert!(acc.take_buffers(&[], &[1, 2]).is_empty());
    assert_eq!(acc.acc_i, vec![7, 8]);
    let bufs = acc.take_buffers(&[9], &[-9]);
    assert_eq!(bufs, vec![(vec![7, 8, 9], vec![-7, -8, -9])]);
    assert!(acc.acc_i.is_empty());
}

#[test]
fn accumulator_flushes_a_full_buffer_before_new_input() {
    let mut acc = TxAccumulator::new(2);
    acc.fill(&[1, 2], &[3, 4]);
    assert!(acc.is_full());
    assert!(acc.take_buffers(&[], &[]).is_empty());
    assert!(acc.is_full());
    let bufs = acc.take_buffers(&[5], &[6]);
    assert_eq!(bufs, vec![(vec![1, 2], vec![3, 4])]);
    assert_eq!(acc.acc_i, vec![5]);
}
