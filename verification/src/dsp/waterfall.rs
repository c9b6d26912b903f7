//! Post-processing of a waterfall row once every FFT bin has been scaled to a byte: the FFT
//! shift that puts DC in the middle of the row, and the interpolation over the centre bins that
//! hides the LO leakage spike.
use vstd::prelude::*;

verus! {

/// The FFT-shifted row: bin `i` of the FFT lands at `(i + n/2) % n`, so that row position `j`
/// holds bin `(j + n - n/2) % n`.
pub open spec fn fft_shifted(bins: Seq<u8>) -> Seq<u8> {
    let n = bins.len() as int;
    Seq::new(bins.len(), |j: int| bins[(j + n - n / 2) % n])
}

/// The value written over the three centre bins: the mean of the bins two to each side of the
/// centre, rounded down.
pub open spec fn dc_patch(row: Seq<u8>) -> u8 {
    let c = row.len() as int / 2;
    ((row[c - 2] + row[c + 2]) / 2) as u8
}

/// The finished row: the shifted row, and for rows of more than four bins the centre bin and
/// its two neighbours replaced by `dc_patch`.
pub open spec fn finished_row(bins: Seq<u8>) -> Seq<u8> {
    let r = fft_shifted(bins);
    let c = bins.len() as int / 2;
    if bins.len() > 4 {
        r.update(c - 1, dc_patch(r)).update(c, dc_patch(r)).update(c + 1, dc_patch(r))
    } else {
        r
    }
}

/// Position `(i + n/2) % n` of the shifted row holds bin `i`: the shift is the usual
/// "DC to centre" rotation.
pub proof fn lemma_shift_places_bin(bins: Seq<u8>, i: int)
    requires
        0 <= i < bins.len(),
    ensures
        fft_shifted(bins)[(i + bins.len() / 2) % (bins.len() as int)] == bins[i],
{
    let n = bins.len() as int;
    let h = n / 2;
    let j = (i + h) % n;
    if i + h < n {
        vstd::arithmetic::div_mod::lemma_small_mod((i + h) as nat, n as nat);
        vstd::arithmetic::div_mod::lemma_mod_add_multiples_vanish(i, n);
        vstd::arithmetic::div_mod::lemma_small_mod(i as nat, n as nat);
        assert((j + n - h) % n == i);
    } else {
        vstd::arithmetic::div_mod::lemma_mod_sub_multiples_vanish(i + h, n);
        vstd::arithmetic::div_mod::lemma_small_mod((i + h - n) as nat, n as nat);
        vstd::arithmetic::div_mod::lemma_small_mod(i as nat, n as nat);
        assert((j + n - h) % n == i);
    }
}

/// Builds the displayed row from the per-bin bytes in FFT order: shifts DC to the centre and,
/// for rows of more than four bins, overwrites the three centre bins with the mean of their
/// neighbours two bins out. A row of exactly four bins has no bin two to the right of the
/// centre, so it is not accepted.
pub fn finish_row(bins: &Vec<u8>) -> (row: Vec<u8>)
    requires
        bins@.len() != 4,
    ensures
        row@ == finished_row(bins@),
        row@.len() == bins@.len(),
        forall|i: int|
            0 <= i < bins@.len() && (bins@.len() <= 4 || !(bins@.len() / 2 - 1 <= (i + bins@.len()
                / 2) % (bins@.len() as int) <= bins@.len() / 2 + 1)) ==> #[trigger] row@[(i
                + bins@.len() / 2) % (bins@.len() as int)] == bins@[i],
        bins@.len() > 4 ==> forall|j: int|
            bins@.len() / 2 - 1 <= j <= bins@.len() / 2 + 1 ==> 2 * #[trigger] row@[j]
                <= bins@[bins@.len() - 2] + bins@[2] <= 2 * row@[j] + 1,
{
    let n = bins.len();
    let half = n / 2;
    let mut row: Vec<u8> = Vec::new();
    let mut j: usize = 0;
    while j < n
        invariant
            n == bins@.len(),
            half == n / 2,
            j <= n,
            row@.len() == j,
            forall|k: int| 0 <= k < j ==> #[trigger] row@[k] == fft_shifted(bins@)[k],
        decreases n - j,
    {
        let src = if j >= half { j - half } else { j + (n - half) };
        proof {
            let ni = n as int;
            if j >= half {
                vstd::arithmetic::div_mod::lemma_mod_add_multiples_vanish((j - half) as int, ni);
                vstd::arithmetic::div_mod::lemma_small_mod((j - half) as nat, n as nat);
                assert((j + ni - half) % ni == src);
            } else {
                vstd::arithmetic::div_mod::lemma_small_mod((j + n - half) as nat, n as nat);
                assert((j + ni - half) % ni == src);
            }
        }
        row.push(bins[src]);
        j = j + 1;
    }
    assert(row@ == fft_shifted(bins@));
    if n > 4 {
        let c = half;
        let a = row[c - 2] as u16;
        let b = row[c + 2] as u16;
        let patch = ((a + b) / 2) as u8;
        let ghost r0 = row@;
        row.set(c - 1, patch);
        row.set(c, patch);
        row.set(c + 1, patch);
        assert(patch == dc_patch(r0));
    }
    proof {
        assert(row@ == finished_row(bins@));
        if n > 4 {
            let nn = n as int;
            let h = nn / 2;
            assert((h - 2 + nn - h) % nn == nn - 2) by {
                vstd::arithmetic::div_mod::lemma_small_mod((nn - 2) as nat, nn as nat);
            }
            assert((h + 2 + nn - h) % nn == 2) by {
                vstd::arithmetic::div_mod::lemma_mod_add_multiples_vanish(2, nn);
                vstd::arithmetic::div_mod::lemma_small_mod(2, nn as nat);
            }
        }
        assert forall|i: int|
            0 <= i < bins@.len() && (bins@.len() <= 4 || !(bins@.len() / 2 - 1 <= (i
                + bins@.len() / 2) % (bins@.len() as int) <= bins@.len() / 2 + 1)) implies
            #[trigger] row@[(i + bins@.len() / 2) % (bins@.len() as int)]
            == bins@[i] by {
            lemma_shift_places_bin(bins@, i);
            vstd::arithmetic::div_mod::lemma_mod_bound(i + bins@.len() / 2, bins@.len() as int);
        }
    }
    row
}

/// The centre patch hides the LO leakage: for rows of more than four bins, each of the three
/// centre bins of the finished row lies between the shifted bins two to either side of the
/// centre, and the finished row does not depend on what the overwritten centre bins held.
pub proof fn lemma_dc_patch_hides_centre(bins1: Seq<u8>, bins2: Seq<u8>)
    requires
        bins1.len() > 4,
        bins2.len() == bins1.len(),
        forall|j: int|
            0 <= j < bins1.len() && !(bins1.len() / 2 - 1 <= j <= bins1.len() / 2 + 1)
                ==> #[trigger] bins1[(j + bins1.len() - bins1.len() / 2) % (bins1.len() as int)]
                == bins2[(j + bins1.len() - bins1.len() / 2) % (bins1.len() as int)],
    ensures
        finished_row(bins1) == finished_row(bins2),
        ({
            let n = bins1.len() as int;
            let c = n / 2;
            let lo = bins1[(c - 2 + n - c) % n];
            let hi = bins1[(c + 2 + n - c) % n];
            forall|j: int|
                c - 1 <= j <= c + 1 ==> {
                    &&& (lo <= #[trigger] finished_row(bins1)[j] <= hi || hi
                        <= finished_row(bins1)[j] <= lo)
                    &&& 2 * finished_row(bins1)[j] <= lo + hi <= 2 * finished_row(bins1)[j] + 1
                }
        }),
{
    let n = bins1.len() as int;
    let c = n / 2;
    let r1 = fft_shifted(bins1);
    let r2 = fft_shifted(bins2);
    assert(r1[c - 2] == r2[c - 2]);
    assert(r1[c + 2] == r2[c + 2]);
    assert(finished_row(bins1) =~= finished_row(bins2)) by {
        assert forall|j: int| 0 <= j < n implies finished_row(bins1)[j] == finished_row(
            bins2,
        )[j] by {
            if !(c - 1 <= j <= c + 1) {
                assert(r1[j] == r2[j]);
            }
        }
    }
}

} // verus!
