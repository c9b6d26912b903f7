//! The double-length history ring shared by the FIR filters and the resampler, and the
//! decimation counter of the decimating filters.
use vstd::prelude::*;

verus! {

/// A delay line of the last `n` samples. Each sample is stored twice, at `idx` and `idx + n`,
/// so the last `n` samples always form one contiguous run `[idx, idx + n)`, oldest first, and
/// the convolution never has to handle the wrap.
pub struct HistoryRing<T> {
    hist: Vec<T>,
    idx: usize,
    n: usize,
    contents: Ghost<Seq<T>>,
}

impl<T> View for HistoryRing<T> {
    type V = Seq<T>;

    /// The last `len` samples, oldest first.
    closed spec fn view(&self) -> Seq<T> {
        self.contents@
    }
}

impl<T: Copy> HistoryRing<T> {
    /// The storage layout: both copies of every slot hold the sample `contents` places there.
    pub closed spec fn wf(&self) -> bool {
        &&& self.n > 0
        &&& self.hist@.len() == 2 * self.n
        &&& 2 * self.n <= usize::MAX
        &&& self.idx < self.n
        &&& self.contents@.len() == self.n
        &&& forall|k: int|
            0 <= k < self.n ==> {
                &&& self.hist@[#[trigger] self.slot(k)] == self.contents@[k]
                &&& self.hist@[self.slot(k) + self.n] == self.contents@[k]
            }
    }

    /// Where the `k`-th oldest sample is stored (its first copy).
    spec fn slot(&self, k: int) -> int {
        (self.idx + k) % (self.n as int)
    }

    /// The number of samples the ring holds.
    pub closed spec fn len(&self) -> nat {
        self.n as nat
    }

    /// A ring of `n` samples, all `fill`.
    pub fn new(n: usize, fill: T) -> (r: Self)
        requires
            0 < n,
            2 * n <= usize::MAX,
        ensures
            r.wf(),
            r.len() == n,
            r@.len() == n,
            r@ == Seq::new(n as nat, |k: int| fill),
    {
        let mut hist: Vec<T> = Vec::new();
        let total = 2 * n;
        let mut k: usize = 0;
        while k < total
            invariant
                total == 2 * n,
                0 <= k <= total,
                hist@.len() == k,
                forall|j: int| 0 <= j < k ==> hist@[j] == fill,
            decreases total - k,
        {
            hist.push(fill);
            k = k + 1;
        }
        let r = HistoryRing { hist, idx: 0, n, contents: Ghost(Seq::new(n as nat, |k: int| fill)) };
        assert forall|k: int| 0 <= k < n implies {
            &&& r.hist@[#[trigger] r.slot(k)] == r.contents@[k]
            &&& r.hist@[r.slot(k) + n] == r.contents@[k]
        } by {
            assert((0 + k) % (n as int) == k) by (nonlinear_arith)
                requires
                    0 <= k < n,
            ;
        }
        r
    }

    /// Number of samples held.
    pub fn size(&self) -> (r: usize)
        requires
            self.wf(),
        ensures
            r == self.len(),
    {
        self.n
    }

    /// Pushes the newest sample, dropping the oldest.
    pub fn push(&mut self, x: T)
        requires
            old(self).wf(),
        ensures
            final(self).wf(),
            final(self).len() == old(self).len(),
            final(self)@ == old(self)@.drop_first().push(x),
    {
        let n = self.n;
        let i = self.idx;
        let ghost c0 = self.contents@;
        let ghost h0 = self.hist@;
        let ghost before = *self;
        self.hist.set(i, x);
        self.hist.set(i + n, x);
        self.idx = if i + 1 >= n { 0 } else { i + 1 };
        self.contents = Ghost(c0.drop_first().push(x));
        assert forall|k: int| 0 <= k < n implies {
            &&& self.hist@[#[trigger] self.slot(k)] == self.contents@[k]
            &&& self.hist@[self.slot(k) + n] == self.contents@[k]
        } by {
            let slot = self.slot(k);
            if k < n - 1 {
                // The slot held sample k + 1 before the push and was not overwritten.
                if i + 1 >= n {
                    vstd::arithmetic::div_mod::lemma_mod_add_multiples_vanish(k, n as int);
                }
                assert(slot == (i + (k + 1)) % (n as int));
                if i + (k + 1) < n {
                    vstd::arithmetic::div_mod::lemma_small_mod((i + (k + 1)) as nat, n as nat);
                } else {
                    vstd::arithmetic::div_mod::lemma_mod_sub_multiples_vanish(
                        (i + (k + 1)) as int,
                        n as int,
                    );
                    vstd::arithmetic::div_mod::lemma_small_mod((i + (k + 1) - n) as nat, n as nat);
                }
                assert(0 <= slot < n && slot != i);
                assert(before.slot(k + 1) == slot);
                assert(h0[slot] == c0[k + 1]);
                assert(h0[slot + n] == c0[k + 1]);
            } else {
                if i + 1 >= n {
                    vstd::arithmetic::div_mod::lemma_small_mod((n - 1) as nat, n as nat);
                } else {
                    vstd::arithmetic::div_mod::lemma_mod_add_multiples_vanish(i as int, n as int);
                    vstd::arithmetic::div_mod::lemma_small_mod(i as nat, n as nat);
                }
                assert(slot == i);
            }
        }
    }

    /// The `k`-th oldest sample held (`k = 0` is the oldest, `len - 1` the newest), read from
    /// the contiguous window `[idx, idx + n)`.
    pub fn get(&self, k: usize) -> (r: T)
        requires
            self.wf(),
            k < self.len(),
        ensures
            r == self@[k as int],
    {
        let p = self.idx + k;
        proof {
            let slot = self.slot(k as int);
            assert(self.hist@[slot] == self.contents@[k as int]);
            assert(self.hist@[slot + self.n] == self.contents@[k as int]);
            if p < self.n {
                vstd::arithmetic::div_mod::lemma_small_mod(p as nat, self.n as nat);
            } else {
                vstd::arithmetic::div_mod::lemma_mod_sub_multiples_vanish(p as int, self.n as int);
                vstd::arithmetic::div_mod::lemma_small_mod((p - self.n) as nat, self.n as nat);
            }
        }
        self.hist[p]
    }
}

/// Counts input samples and signals every `factor`-th one, where a decimating filter emits an
/// output. A factor of 0 behaves as 1.
pub struct DecimationCounter {
    pub count: usize,
    pub factor: usize,
}

impl DecimationCounter {
    /// The counter's invariant: it is always below the (effective) factor.
    pub open spec fn wf(self) -> bool {
        self.count < if self.factor == 0 { 1 } else { self.factor }
    }

    /// A counter that emits on every `factor`-th sample.
    pub fn new(factor: usize) -> (r: Self)
        ensures
            r == (DecimationCounter { count: 0, factor: factor }),
            r.wf(),
    {
        DecimationCounter { count: 0, factor }
    }

    /// Switches to a new factor, keeping the samples already counted: the next output falls
    /// where counting against the new factor puts it (a count at or past the new factor is due
    /// on the next sample).
    pub fn retarget(&mut self, factor: usize)
        requires
            old(self).wf(),
        ensures
            final(self).wf(),
            final(self).factor == factor,
            ({
                let limit = if factor == 0 { 0 } else { factor - 1 };
                final(self).count == if old(self).count < limit { old(self).count as int } else { limit }
            }),
    {
        let limit = if factor == 0 { 0 } else { factor - 1 };
        if self.count > limit {
            self.count = limit;
        }
        self.factor = factor;
    }

    /// Counts one input sample; returns whether an output is due now.
    pub fn tick(&mut self) -> (emit: bool)
        requires
            old(self).wf(),
        ensures
            final(self).wf(),
            final(self).factor == old(self).factor,
            emit == (old(self).count + 1 >= old(self).factor),
            final(self).count == if emit { 0 } else { old(self).count + 1 },
    {
        self.count = self.count + 1;
        if self.count >= self.factor {
            self.count = 0;
            true
        } else {
            false
        }
    }
}

/// Over any run of samples a counter with factor `f >= 1` emits once per `f` samples: with
/// `count` samples since the last output, `ticks` further samples produce
/// `(count + ticks) / f` outputs and leave `(count + ticks) % f` counted.
pub proof fn lemma_decimation_rate(count: nat, f: nat, ticks: nat)
    requires
        f >= 1,
        count < f,
    ensures
        ({
            let (emits, left) = decimation_run(count, f, ticks);
            &&& emits == (count + ticks) as int / (f as int)
            &&& left == (count + ticks) as int % (f as int)
        }),
    decreases ticks,
{
    if ticks > 0 {
        lemma_decimation_rate(count, f, (ticks - 1) as nat);
        let (e, l) = decimation_run(count, f, (ticks - 1) as nat);
        let x: int = (count + ticks) as int;
        let d: int = f as int;
        vstd::arithmetic::div_mod::lemma_fundamental_div_mod(x - 1, d);
        vstd::arithmetic::div_mod::lemma_mod_bound(x - 1, d);
        assert(x - 1 == d * e + l);
        if l + 1 >= f {
            assert(x == (e + 1) * d + 0) by (nonlinear_arith)
                requires
                    x - 1 == d * e + l,
                    l + 1 == d,
            ;
            vstd::arithmetic::div_mod::lemma_fundamental_div_mod_converse(x, d, e + 1, 0);
        } else {
            assert(x == e * d + (l + 1)) by (nonlinear_arith)
                requires
                    x - 1 == d * e + l,
            ;
            vstd::arithmetic::div_mod::lemma_fundamental_div_mod_converse(x, d, e, l + 1);
        }
    } else {
        vstd::arithmetic::div_mod::lemma_small_mod(count, f);
        vstd::arithmetic::div_mod::lemma_basic_div(count as int, f as int);
    }
}

/// From a fresh counter with factor `f >= 1`, the `k`-th sample (counting from 1) produces an
/// output exactly when `k` is a multiple of `f`.
pub proof fn lemma_kth_tick_emits(f: nat, k: nat)
    requires
        f >= 1,
        k >= 1,
    ensures
        ({
            let (_, left) = decimation_run(0, f, (k - 1) as nat);
            (left + 1 >= f) == (k % f == 0)
        }),
{
    lemma_decimation_rate(0, f, (k - 1) as nat);
    let (_, left) = decimation_run(0, f, (k - 1) as nat);
    vstd::arithmetic::div_mod::lemma_fundamental_div_mod((k - 1) as int, f as int);
    vstd::arithmetic::div_mod::lemma_mod_bound((k - 1) as int, f as int);
    let q = (k - 1) as int / (f as int);
    if left + 1 >= f {
        assert(k as int == (q + 1) * f + 0) by (nonlinear_arith)
            requires
                (k - 1) as int == f * q + left,
                left == f - 1,
        ;
        vstd::arithmetic::div_mod::lemma_fundamental_div_mod_converse(k as int, f as int, q + 1, 0);
    } else {
        assert(k as int == q * f + (left + 1)) by (nonlinear_arith)
            requires
                (k - 1) as int == f * q + left,
        ;
        vstd::arithmetic::div_mod::lemma_fundamental_div_mod_converse(
            k as int,
            f as int,
            q,
            left + 1,
        );
    }
}

/// Outputs and remaining count after `ticks` samples from `count`, as `tick` computes them.
pub open spec fn decimation_run(count: nat, f: nat, ticks: nat) -> (int, int)
    decreases ticks,
{
    if ticks == 0 {
        (0, count as int)
    } else {
        let (e, l) = decimation_run(count, f, (ticks - 1) as nat);
        if l + 1 >= f {
            (e + 1, 0)
        } else {
            (e, l + 1)
        }
    }
}

} // verus!
