//! Transmit-side DSP logic that involves no sample arithmetic: sideband selection and the
//! schedule of the L/M polyphase resampler that feeds the TX DMA.
use vstd::prelude::*;

use crate::text::str_eq;
use crate::AUDIO_SAMPLE_RATE;

verus! {

/// Sideband the SSB modulator transmits.
#[derive(Clone, Copy, Debug, PartialEq, Eq, Structural)]
pub enum TxMode {
    USB,
    LSB,
}

/// The sideband a control-protocol name selects: `"LSB"` selects LSB, anything else USB.
pub open spec fn tx_mode_from_name(s: Seq<char>) -> TxMode {
    if s == "LSB"@ {
        TxMode::LSB
    } else {
        TxMode::USB
    }
}

impl TxMode {
    /// Reads a modulation name from the control protocol; unknown names fall back to USB.
    pub fn from_name(s: &str) -> (r: TxMode)
        ensures
            r == tx_mode_from_name(s@),
    {
        if str_eq(s, "LSB") {
            TxMode::LSB
        } else {
            TxMode::USB
        }
    }
}

/// Greatest common divisor by Euclid's algorithm (`gcd(a, 0) == a`).
pub open spec fn gcd(a: nat, b: nat) -> nat
    decreases b,
{
    if b == 0 {
        a
    } else {
        gcd(b, a % b)
    }
}

/// `gcd(a, b)` divides both of its arguments (when they are not both zero).
pub proof fn lemma_gcd_divides(a: nat, b: nat)
    requires
        a > 0 || b > 0,
    ensures
        gcd(a, b) > 0,
        a % gcd(a, b) == 0,
        b % gcd(a, b) == 0,
    decreases b,
{
    if b == 0 {
        vstd::arithmetic::div_mod::lemma_mod_self_0(a as int);
        vstd::arithmetic::div_mod::lemma_small_mod(0, a);
    } else {
        let r = a % b;
        lemma_gcd_divides(b, r);
        let g = gcd(b, r);
        vstd::arithmetic::div_mod::lemma_fundamental_div_mod(b as int, g as int);
        vstd::arithmetic::div_mod::lemma_fundamental_div_mod(r as int, g as int);
        vstd::arithmetic::div_mod::lemma_fundamental_div_mod(a as int, b as int);
        let k: int = ((b / g) * (a / b) + r / g) as int;
        assert(a == k * g) by (nonlinear_arith)
            requires
                a == b * (a / b) + r,
                b == g * (b / g) + 0,
                r == g * (r / g) + 0,
                k == (b / g) * (a / b) + r / g,
        ;
        vstd::arithmetic::div_mod::lemma_mod_multiples_basic(k, g as int);
    }
}

fn gcd_u32(a: u32, b: u32) -> (g: u32)
    ensures
        g == gcd(a as nat, b as nat),
{
    let mut x = a;
    let mut y = b;
    while y != 0
        invariant
            gcd(x as nat, y as nat) == gcd(a as nat, b as nat),
        decreases y,
    {
        let t = y;
        y = x % y;
        x = t;
    }
    x
}

/// The interpolation and decimation factors `(L, M)` that take the modulator's audio rate to
/// `dma_fs`: both rates divided by their greatest common divisor. `None` when the DMA already
/// runs at the audio rate and no resampler is needed.
pub open spec fn resample_factors(dma_fs: u32) -> Option<(nat, nat)> {
    if dma_fs == AUDIO_SAMPLE_RATE {
        None
    } else {
        let g = gcd(dma_fs as nat, AUDIO_SAMPLE_RATE as nat);
        Some(((dma_fs as nat) / g, (AUDIO_SAMPLE_RATE as nat) / g))
    }
}

/// The resampler factors for a DMA feed rate; see `resample_factors`.
pub fn resample_ratio(dma_fs: u32) -> (r: Option<(usize, usize)>)
    ensures
        r.is_none() <==> dma_fs == AUDIO_SAMPLE_RATE,
        r matches Some((l, m)) ==> resample_factors(dma_fs) == Some((l as nat, m as nat)),
{
    if dma_fs == AUDIO_SAMPLE_RATE {
        return None;
    }
    let g = gcd_u32(dma_fs, AUDIO_SAMPLE_RATE);
    proof {
        lemma_gcd_divides(dma_fs as nat, AUDIO_SAMPLE_RATE as nat);
    }
    let l = (dma_fs / g) as usize;
    let m = (AUDIO_SAMPLE_RATE / g) as usize;
    Some((l, m))
}

/// The factors are exact: `L / M == dma_fs / 48000`, i.e. `L * 48000 == M * dma_fs`, and
/// `M >= 1`.
pub proof fn lemma_resample_factors_exact(dma_fs: u32)
    requires
        dma_fs != AUDIO_SAMPLE_RATE,
    ensures
        resample_factors(dma_fs) matches Some((l, m)) && l * AUDIO_SAMPLE_RATE == m * dma_fs
            && m >= 1,
{
    let a = dma_fs as nat;
    let b = AUDIO_SAMPLE_RATE as nat;
    lemma_gcd_divides(a, b);
    let g = gcd(a, b);
    vstd::arithmetic::div_mod::lemma_fundamental_div_mod(a as int, g as int);
    vstd::arithmetic::div_mod::lemma_fundamental_div_mod(b as int, g as int);
    let l = a / g;
    let m = b / g;
    assert(l * b == m * a) by (nonlinear_arith)
        requires
            a == g * l + 0,
            b == g * m + 0,
    ;
    assert(m >= 1) by (nonlinear_arith)
        requires
            b == g * m + 0,
            b > 0,
            g > 0,
    ;
}

/// How many outputs the resampler emits for one input when its phase is `p`: one for each of
/// `p, p + m, p + 2m, ...` below `l`.
pub open spec fn emit_count(p: int, l: int, m: int) -> nat
    decreases (if p < l { l - p } else { 0 }),
{
    if m <= 0 || p >= l {
        0
    } else {
        1 + emit_count(p + m, l, m)
    }
}

/// The phase that follows `p` once its outputs are emitted.
pub open spec fn next_phase(p: int, l: int, m: int) -> int {
    p + emit_count(p, l, m) * m - l
}

/// After one input the phase is back in `[0, m)` (from any `p < l + m`).
pub proof fn lemma_next_phase_bounds(p: int, l: int, m: int)
    requires
        m > 0,
        p < l + m,
    ensures
        p >= l ==> 0 <= next_phase(p, l, m) < m,
        p < l ==> 0 <= next_phase(p, l, m) < m,
    decreases (if p < l { l - p } else { 0 }),
{
    if p < l {
        lemma_next_phase_bounds(p + m, l, m);
        let c = emit_count(p + m, l, m);
        assert((1 + c) * m == m + c * m) by (nonlinear_arith);
    } else {
        assert(emit_count(p, l, m) == 0);
        assert(emit_count(p, l, m) * m == 0) by (nonlinear_arith)
            requires
                emit_count(p, l, m) == 0,
        ;
    }
}

/// Outputs emitted and the final phase after `n` inputs, starting from phase `p`.
pub open spec fn resample_run(p: int, l: int, m: int, n: nat) -> (int, int)
    decreases n,
{
    if n == 0 {
        (0, p)
    } else {
        let (outs, q) = resample_run(p, l, m, (n - 1) as nat);
        (outs + emit_count(q, l, m), next_phase(q, l, m))
    }
}

/// Over any run of inputs the resampler emits exactly `L` outputs per `M` inputs, up to the
/// phase carried over: after `n` inputs from phase `p`, `outputs * M == n * L + phase - p`,
/// with the phase always in `[0, M)`.
pub proof fn lemma_resample_rate(p: int, l: int, m: int, n: nat)
    requires
        m > 0,
        l >= 0,
        0 <= p < m,
    ensures
        ({
            let (outs, q) = resample_run(p, l, m, n);
            &&& outs * m == n * l + q - p
            &&& 0 <= q < m
        }),
    decreases n,
{
    if n > 0 {
        lemma_resample_rate(p, l, m, (n - 1) as nat);
        let (outs, q) = resample_run(p, l, m, (n - 1) as nat);
        lemma_next_phase_bounds(q, l, m);
        let c = emit_count(q, l, m) as int;
        let n1 = (n - 1) as int;
        assert((outs + c) * m == n * l + (q + c * m - l) - p) by (nonlinear_arith)
            requires
                outs * m == n1 * l + q - p,
                n == n1 + 1,
        ;
    } else {
        assert(0 * m == 0 * l + p - p) by (nonlinear_arith);
    }
}

/// From a fresh accumulator, `n` inputs produce exactly `ceil(n * L / M)` outputs.
pub proof fn lemma_resample_output_count(l: int, m: int, n: nat)
    requires
        m > 0,
        l >= 0,
    ensures
        resample_run(0, l, m, n).0 == (n * l + m - 1) / m,
{
    lemma_resample_rate(0, l, m, n);
    let (outs, q) = resample_run(0, l, m, n);
    assert(n * l + m - 1 == outs * m + (m - 1 - q));
    vstd::arithmetic::div_mod::lemma_fundamental_div_mod_converse(
        n * l + m - 1,
        m,
        outs,
        m - 1 - q,
    );
}

/// Fed at the 48 kHz audio rate from a fresh accumulator, the resampler produces output at the
/// DMA feed rate: after `n` inputs it has emitted `n * dma_fs / 48000` outputs to within one.
pub proof fn lemma_resampler_tracks_dma_rate(dma_fs: u32, n: nat)
    requires
        dma_fs != AUDIO_SAMPLE_RATE,
    ensures
        resample_factors(dma_fs) matches Some((l, m)) && ({
            let (outs, q) = resample_run(0, l as int, m as int, n);
            &&& n * dma_fs - AUDIO_SAMPLE_RATE < outs * AUDIO_SAMPLE_RATE
            &&& outs * AUDIO_SAMPLE_RATE < n * dma_fs + AUDIO_SAMPLE_RATE
        }),
{
    lemma_resample_factors_exact(dma_fs);
    let (l, m) = resample_factors(dma_fs)->Some_0;
    lemma_resample_rate(0, l as int, m as int, n);
    let (outs, q) = resample_run(0, l as int, m as int, n);
    let a: int = AUDIO_SAMPLE_RATE as int;
    let f: int = dma_fs as int;
    let li: int = l as int;
    let mi: int = m as int;
    let ni: int = n as int;
    assert(mi * (outs * a - ni * f) == q * a) by (nonlinear_arith)
        requires
            outs * mi == ni * li + q - 0,
            li * a == mi * f,
    ;
    assert(ni * f - a < outs * a < ni * f + a) by (nonlinear_arith)
        requires
            mi * (outs * a - ni * f) == q * a,
            0 <= q < mi,
            mi >= 1,
            a > 0,
    ;
}

/// The phase accumulator of the L/M polyphase resampler: for every input sample it names the
/// polyphase branches whose outputs are due, then advances by one input period.
pub struct ResamplePhase {
    pub l: usize,
    pub m: usize,
    pub phase: usize,
}

impl ResamplePhase {
    /// The accumulator's invariant: a non-zero step and the phase below it.
    pub open spec fn wf(self) -> bool {
        &&& self.m >= 1
        &&& self.phase < self.m
        &&& self.l + self.m <= usize::MAX
    }

    /// An accumulator for `L` up, `M` down, at phase 0.
    pub fn new(l: usize, m: usize) -> (r: Self)
        requires
            m >= 1,
            l + m <= usize::MAX,
        ensures
            r == (ResamplePhase { l, m, phase: 0 }),
            r.wf(),
    {
        ResamplePhase { l, m, phase: 0 }
    }

    /// Accounts for one input sample: returns the branches `phase, phase + m, ...` below `l`
    /// whose outputs are due, in order, and moves the phase on by one input.
    pub fn next_input(&mut self) -> (branches: Vec<usize>)
        requires
            old(self).wf(),
        ensures
            final(self).wf(),
            final(self).l == old(self).l,
            final(self).m == old(self).m,
            branches@.len() == emit_count(old(self).phase as int, old(self).l as int, old(self).m as int),
            forall|k: int|
                0 <= k < branches@.len() ==> #[trigger] branches@[k] == old(self).phase + k * old(self).m
                    && branches@[k] < old(self).l,
            old(self).phase + branches@.len() * old(self).m >= old(self).l,
            final(self).phase == next_phase(old(self).phase as int, old(self).l as int, old(self).m as int),
    {
        let l = self.l;
        let m = self.m;
        let p0 = self.phase;
        let mut p = p0;
        let mut branches: Vec<usize> = Vec::new();
        proof {
            assert(branches@.len() * m == 0) by (nonlinear_arith)
                requires
                    branches@.len() == 0,
            ;
        }
        while p < l
            invariant
                m >= 1,
                l + m <= usize::MAX,
                p0 < m,
                p == p0 + branches@.len() * m,
                emit_count(p0 as int, l as int, m as int) == branches@.len() + emit_count(p as int, l as int, m as int),
                forall|k: int| 0 <= k < branches@.len() ==> #[trigger] branches@[k] == p0 + k * m && branches@[k] < l,
            decreases l + m - p,
        {
            proof {
                assert((branches@.len() + 1) * m == branches@.len() * m + m) by (nonlinear_arith);
            }
            branches.push(p);
            p = p + m;
        }
        proof {
            lemma_next_phase_bounds(p0 as int, l as int, m as int);
        }
        self.phase = p - l;
        branches
    }
}

} // verus!
