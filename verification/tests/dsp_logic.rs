use pluto::dsp::filter::{audio_filter_tap_count, filter_params_changed, MAX_FILTER_TAPS, MIN_FILTER_TAPS};
use pluto::dsp::ring::{DecimationCounter, HistoryRing};
use pluto::dsp::tx::{resample_ratio, ResamplePhase};
use pluto::dsp::waterfall::finish_row;
use pluto::phy::{
    antenna_retune_steps, fir_disable_steps, fir_enable_needs_path_rates, fir_enable_steps,
    fir_reload_prelude, rx_bandwidth_request, PhyStep,
};

#[test]
fn history_ring_keeps_last_samples_in_order() {
    let mut r = HistoryRing::new(3, 0i32);
    assert_eq!(r.size(), 3);
    assert_eq!((r.get(0), r.get(1), r.get(2)), (0, 0, 0));
    for x in 1..=5 {
        r.push(x);
    }
    assert_eq!((r.get(0), r.get(1), r.get(2)), (3, 4, 5));
    r.push(6);
    assert_eq!((r.get(0), r.get(1), r.get(2)), (4, 5, 6));
    let mut one = HistoryRing::new(1, 9u8);
    one.push(4);
    assert_eq!(one.get(0), 4);
}

#[test]
fn decimation_counter_emits_every_factor_samples() {
    let mut c = DecimationCounter::new(3);
    let emits: Vec<bool> = (0..7).map(|_| c.tick()).collect();
    assert_eq!(emits, vec![false, false, true, false, false, true, false]);
    assert_eq!(c.count, 1);
    let mut every = DecimationCounter::new(1);
    assert!(every.tick() && every.tick());
    // A factor of zero behaves as one.
    let mut zero = DecimationCounter::new(0);
    assert!(zero.tick() && zero.tick());
}

#[test]
fn decimation_rate_over_a_long_run() {
    let mut c = DecimationCounter::new(5);
    let outs = (0..1003).filter(|_| c.tick()).count();
    assert_eq!(outs, 1003 / 5);
    assert_eq!(c.count, 1003 % 5);
}

#[test]
fn resample_ratio_reduces_rates() {
    assert_eq!(resample_ratio(48_000), None);
    assert_eq!(resample_ratio(60_000), Some((5, 4)));
    assert_eq!(resample_ratio(120_000), Some((5, 2)));
    assert_eq!(resample_ratio(96_000), Some((2, 1)));
    assert_eq!(resample_ratio(44_100), Some((147, 160)));
    assert_eq!(resample_ratio(0), Some((0, 1)));
    for fs in [60_000u32, 120_000, 44_100, 7, 1_000_000] {
        let (l, m) = resample_ratio(fs).unwrap();
        assert_eq!(l as u64 * 48_000, m as u64 * fs as u64);
    }
}

#[test]
fn resample_phase_schedules_branches() {
    let mut p = ResamplePhase::new(5, 4);
    assert_eq!(p.next_input(), vec![0, 4]);
    assert_eq!(p.phase, 3);
    assert_eq!(p.next_input(), vec![3]);
    assert_eq!(p.phase, 2);
    assert_eq!(p.next_input(), vec![2]);
    assert_eq!(p.next_input(), vec![1]);
    assert_eq!(p.next_input(), vec![0, 4]);
    let mut down = ResamplePhase::new(2, 5);
    assert_eq!(down.next_input(), vec![0]);
    assert!(down.next_input().is_empty());
    assert_eq!(down.next_input(), vec![1]);
    assert!(down.next_input().is_empty());
    assert!(down.next_input().is_empty());
}

#[test]
fn resample_rate_is_l_per_m() {
    for (l, m) in [(5usize, 4usize), (5, 2), (147, 160), (1, 1), (3, 7)] {
        let mut p = ResamplePhase::new(l, m);
        let n = 10 * m + 3;
        let outs: usize = (0..n).map(|_| p.next_input().len()).sum();
        assert_eq!(outs * m, n * l + p.phase);
        assert!(p.phase < m);
    }
}

#[test]
fn waterfall_row_is_shifted_and_patched() {
    let bins: Vec<u8> = (0..8).map(|k| 10 * k).collect();
    // Shift: bin i lands at (i + 4) % 8 -> [40, 50, 60, 70, 0, 10, 20, 30]; centre 4.
    let row = finish_row(&bins);
    let patch = ((60u16 + 20u16) / 2) as u8;
    assert_eq!(row, vec![40, 50, 60, patch, patch, patch, 20, 30]);
    let odd: Vec<u8> = vec![1, 2, 3, 4, 5];
    // n = 5, half = 2: bin i at (i + 2) % 5 -> [4, 5, 1, 2, 3]; patch of row[0] and row[4].
    assert_eq!(finish_row(&odd), vec![4, 3, 3, 3, 3]);
    assert_eq!(finish_row(&vec![7, 9]), vec![9, 7]);
    assert_eq!(finish_row(&vec![]), Vec::<u8>::new());
    let big = vec![255u8; 16];
    assert_eq!(finish_row(&big), big);
}

#[test]
fn filter_taps_clamped_and_odd() {
    assert_eq!(audio_filter_tap_count(1), MIN_FILTER_TAPS);
    assert_eq!(audio_filter_tap_count(10), 63);
    assert_eq!(audio_filter_tap_count(11), 67);
    assert_eq!(audio_filter_tap_count(50), 301);
    assert_eq!(audio_filter_tap_count(85), 511);
    assert_eq!(audio_filter_tap_count(1000), MAX_FILTER_TAPS);
    assert_eq!(audio_filter_tap_count(usize::MAX), MAX_FILTER_TAPS);
    assert_eq!(audio_filter_tap_count(0), 63);
    for d in 0..200usize {
        let expected = ((d * 6) | 1).clamp(63, 511);
        assert_eq!(audio_filter_tap_count(d), expected);
    }
}

#[test]
fn filter_changes_detected() {
    assert!(!filter_params_changed(5, 240_000, false, 5, 240_000));
    assert!(filter_params_changed(5, 240_000, false, 4, 240_000));
    assert!(filter_params_changed(5, 240_000, false, 5, 480_000));
    assert!(filter_params_changed(5, 240_000, true, 5, 240_000));
}

#[test]
fn fir_reload_takes_fir_offline() {
    assert!(fir_reload_prelude(false, 1_000_000).is_empty());
    assert_eq!(
        fir_reload_prelude(true, 1_000_000),
        vec![PhyStep::BridgeRate, PhyStep::SetFir(false)]
    );
    assert_eq!(fir_reload_prelude(true, 2_083_333), vec![PhyStep::BridgeRate, PhyStep::SetFir(false)]);
    assert_eq!(fir_reload_prelude(true, 3_840_000), vec![PhyStep::SetFir(false)]);
}

#[test]
fn fir_enable_orders_rate_and_fir() {
    assert!(fir_enable_needs_path_rates(768_000));
    assert!(!fir_enable_needs_path_rates(3_000_000));
    assert_eq!(
        fir_enable_steps(768_000, true),
        vec![PhyStep::BridgeRate, PhyStep::SetFir(true), PhyStep::WriteRate(768_000)]
    );
    assert_eq!(
        fir_enable_steps(768_000, false),
        vec![PhyStep::SetFir(true), PhyStep::WriteRate(768_000)]
    );
    assert_eq!(
        fir_enable_steps(3_000_000, true),
        vec![PhyStep::WriteRate(3_000_000), PhyStep::SetFir(true)]
    );
}

#[test]
fn fir_disable_bridges_low_rates() {
    assert!(fir_disable_steps(false, Some(768_000)).is_empty());
    assert_eq!(
        fir_disable_steps(true, Some(768_000)),
        vec![PhyStep::BridgeRate, PhyStep::SetFir(false)]
    );
    assert_eq!(fir_disable_steps(true, None), vec![PhyStep::BridgeRate, PhyStep::SetFir(false)]);
    assert_eq!(fir_disable_steps(true, Some(2_083_333)), vec![PhyStep::SetFir(false)]);
}

#[test]
fn antenna_retune_orders_rate_and_bandwidth() {
    assert_eq!(
        antenna_retune_steps(3_840_000, 3_000_000, Some(768_000)),
        vec![PhyStep::WriteRate(3_840_000), PhyStep::WriteBandwidth(3_000_000)]
    );
    assert_eq!(
        antenna_retune_steps(768_000, 600_000, Some(3_840_000)),
        vec![PhyStep::WriteBandwidth(600_000), PhyStep::WriteRate(768_000)]
    );
    assert_eq!(
        antenna_retune_steps(768_000, 600_000, None),
        vec![PhyStep::WriteBandwidth(600_000), PhyStep::WriteRate(768_000)]
    );
}

#[test]
fn rx_bandwidth_never_exceeds_rate() {
    assert_eq!(rx_bandwidth_request(200_000, 3_840_000), 200_000);
    assert_eq!(rx_bandwidth_request(5_000_000, 3_840_000), 3_840_000);
}

#[test]
fn resampler_output_tracks_dma_rate() {
    for dma_fs in [60_000u32, 120_000, 44_100, 96_000] {
        let (l, m) = resample_ratio(dma_fs).unwrap();
        let mut p = ResamplePhase::new(l, m);
        let mut outs: u64 = 0;
        for n in 1..=5000u64 {
            outs += p.next_input().len() as u64;
            let target = n * dma_fs as u64;
            assert!(outs * 48_000 + 48_000 > target && outs * 48_000 < target + 48_000);
        }
    }
}

#[test]
fn decimation_counter_kth_tick_is_multiple_of_factor() {
    for f in 1..=7usize {
        let mut c = DecimationCounter::new(f);
        for k in 1..=50usize {
            assert_eq!(c.tick(), k % f == 0);
        }
    }
    let mut five = DecimationCounter::new(5);
    let emits: Vec<bool> = (0..5).map(|_| five.tick()).collect();
    assert_eq!(emits, vec![false, false, false, false, true]);
}

#[test]
fn decimation_counter_retarget_keeps_count() {
    let mut c = DecimationCounter::new(10);
    for _ in 0..7 {
        c.tick();
    }
    c.retarget(12);
    assert_eq!((c.count, c.factor), (7, 12));
    c.retarget(4);
    assert_eq!((c.count, c.factor), (3, 4));
    assert!(c.tick());
    c.retarget(0);
    assert_eq!((c.count, c.factor), (0, 0));
    assert!(c.tick());
}

#[test]
fn resampler_output_count_is_ceiling() {
    let (l, m) = resample_ratio(60_000).unwrap();
    let mut p = ResamplePhase::new(l, m);
    let outs: usize = (0..4).map(|_| p.next_input().len()).sum();
    assert_eq!(outs, 5);
    for (l, m) in [(5usize, 4usize), (147, 160), (2, 5), (5, 2)] {
        let mut p = ResamplePhase::new(l, m);
        let mut outs = 0usize;
        for n in 1..=300usize {
            outs += p.next_input().len();
            assert_eq!(outs, (n * l + m - 1) / m);
        }
    }
}
