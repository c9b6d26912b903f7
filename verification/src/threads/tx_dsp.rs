//! The TX jitter buffer: a bounded FIFO of browser audio with drift compensation, and the
//! decisions of the modulation loop that feeds the transmitter from it.
use vstd::prelude::*;

use std::collections::VecDeque;

verus! {

broadcast use vstd::std_specs::vecdeque::group_vec_dequeue_axioms;

/// Modulation block size: each block carries this many 48 kHz audio samples.
pub const BLOCK: usize = 512;
/// Target cushion depth (150 ms); priming fills to here before audio flows.
pub const TARGET_DEPTH: usize = 7_200;
/// Deadband around the target (25 ms) inside which no drift nudge is applied.
pub const DEADBAND: usize = 1_200;
/// Hard cap (350 ms); a burst beyond it is trimmed from the oldest samples back to the target.
pub const MAX_DEPTH: usize = 16_800;
/// Silence emitted while empty before the loop parks on a blocking receive (250 ms).
pub const SILENCE_PARK: usize = 12_000;

/// Bounded jitter buffer for browser TX audio, ahead of SSB modulation.
pub struct TxJitterBuffer<T> {
    /// Buffered samples, oldest first.
    pub buf: VecDeque<T>,
    /// Once primed, audio drains to the modulator; before that only silence is emitted.
    pub primed: bool,
    /// Consecutive silence samples emitted while the buffer was empty.
    pub silence_run: usize,
    /// Silence samples emitted while waiting to prime with a non-empty buffer.
    pub prime_wait_samples: usize,
}

/// The drift nudge for a buffer depth: consume one extra sample above the deadband, one fewer
/// below it, none inside it.
pub open spec fn nudge_for(depth: int) -> i32 {
    if depth > TARGET_DEPTH + DEADBAND {
        1
    } else if depth + DEADBAND < TARGET_DEPTH {
        -1i32
    } else {
        0
    }
}

/// How many oldest samples a push trims from a buffer of `len` samples.
pub open spec fn trim_for(len: int) -> int {
    if len > MAX_DEPTH {
        len - TARGET_DEPTH
    } else {
        0
    }
}

impl<T: Copy> TxJitterBuffer<T> {
    /// Empty and unprimed.
    pub fn new() -> (r: Self)
        ensures
            r.buf@ == Seq::<T>::empty(),
            !r.primed,
            r.silence_run == 0,
            r.prime_wait_samples == 0,
    {
        TxJitterBuffer {
            buf: VecDeque::with_capacity(MAX_DEPTH + BLOCK),
            primed: false,
            silence_run: 0,
            prime_wait_samples: 0,
        }
    }

    /// Back to empty and unprimed.
    pub fn reset(&mut self)
        ensures
            final(self).buf@ == Seq::<T>::empty(),
            !final(self).primed,
            final(self).silence_run == 0,
            final(self).prime_wait_samples == 0,
    {
        self.buf.clear();
        self.primed = false;
        self.silence_run = 0;
        self.prime_wait_samples = 0;
    }

    /// Appends a network chunk; if the buffer then exceeds `MAX_DEPTH`, trims the oldest
    /// samples back to `TARGET_DEPTH`. Returns the number of samples trimmed.
    pub fn push_chunk(&mut self, chunk: Vec<T>) -> (dropped: usize)
        ensures
            dropped == trim_for(old(self).buf@.len() + chunk@.len() as int),
            final(self).buf@ == (old(self).buf@ + chunk@).skip(dropped as int),
            final(self).buf@.len() <= MAX_DEPTH,
            final(self).primed == old(self).primed,
            final(self).silence_run == old(self).silence_run,
            final(self).prime_wait_samples == old(self).prime_wait_samples,
    {
        let ghost all = old(self).buf@ + chunk@;
        let mut k: usize = 0;
        while k < chunk.len()
            invariant
                0 <= k <= chunk.len(),
                all == old(self).buf@ + chunk@,
                self.buf@ == old(self).buf@ + chunk@.subrange(0, k as int),
                self.primed == old(self).primed,
                self.silence_run == old(self).silence_run,
                self.prime_wait_samples == old(self).prime_wait_samples,
            decreases chunk.len() - k,
        {
            self.buf.push_back(chunk[k]);
            assert(chunk@.subrange(0, k + 1) =~= chunk@.subrange(0, k as int).push(chunk@[k as int]));
            k = k + 1;
        }
        assert(chunk@.subrange(0, chunk.len() as int) =~= chunk@);
        let len = self.buf.len();
        if len > MAX_DEPTH {
            let drop = len - TARGET_DEPTH;
            let mut d: usize = 0;
            while d < drop
                invariant
                    0 <= d <= drop,
                    drop == all.len() - TARGET_DEPTH,
                    all.len() > MAX_DEPTH,
                    self.buf@ == all.skip(d as int),
                    self.primed == old(self).primed,
                    self.silence_run == old(self).silence_run,
                    self.prime_wait_samples == old(self).prime_wait_samples,
                decreases drop - d,
            {
                let _ = self.buf.pop_front();
                assert(all.skip(d as int).subrange(1, all.skip(d as int).len() as int) =~= all.skip(
                    d + 1,
                ));
                d = d + 1;
            }
            drop
        } else {
            assert(all.skip(0) =~= all);
            0
        }
    }

    /// The drift nudge for the current depth.
    pub fn nudge(&self) -> (r: i32)
        ensures
            r == nudge_for(self.buf@.len() as int),
    {
        let d = self.buf.len();
        if d > TARGET_DEPTH + DEADBAND {
            1
        } else if d < TARGET_DEPTH - DEADBAND {
            -1
        } else {
            0
        }
    }

    /// Takes the next block's input: the oldest `BLOCK + nudge` samples (fewer when the buffer
    /// holds fewer). The caller resamples them to exactly `BLOCK` samples.
    pub fn take_block(&mut self, nudge: i32) -> (out: Vec<T>)
        requires
            -1 <= nudge <= 1,
        ensures
            ({
                let want = BLOCK + nudge;
                let n = if want < old(self).buf@.len() { want } else { old(self).buf@.len() as int };
                &&& out@ == old(self).buf@.take(n)
                &&& final(self).buf@ == old(self).buf@.skip(n)
            }),
            final(self).primed == old(self).primed,
            final(self).silence_run == old(self).silence_run,
            final(self).prime_wait_samples == old(self).prime_wait_samples,
    {
        let want: usize = if nudge > 0 { BLOCK + 1 } else if nudge < 0 { BLOCK - 1 } else { BLOCK };
        let len = self.buf.len();
        let take = if want < len { want } else { len };
        let ghost orig = self.buf@;
        let mut out: Vec<T> = Vec::with_capacity(take);
        let mut k: usize = 0;
        while k < take
            invariant
                0 <= k <= take,
                take <= orig.len(),
                out@ == orig.take(k as int),
                self.buf@ == orig.skip(k as int),
                self.primed == old(self).primed,
                self.silence_run == old(self).silence_run,
                self.prime_wait_samples == old(self).prime_wait_samples,
            decreases take - k,
        {
            match self.buf.pop_front() {
                Some(x) => {
                    out.push(x);
                },
                None => {},
            }
            assert(orig.take(k + 1) =~= orig.take(k as int).push(orig[k as int]));
            assert(orig.skip(k as int).subrange(1, orig.skip(k as int).len() as int) =~= orig.skip(
                k + 1,
            ));
            k = k + 1;
        }
        out
    }
}

/// What the modulation loop does next.
pub enum FeedStep<T> {
    /// The buffer has stayed empty for `SILENCE_PARK` samples: the loop blocks until audio
    /// arrives, and the buffer must prime again.
    Park,
    /// One block of silence is modulated.
    Silence,
    /// One block of buffered audio is modulated (resampled by the caller to `BLOCK` samples).
    Audio(Vec<T>),
}

/// `a + b`, held at `usize::MAX`.
pub open spec fn sat_add(a: usize, b: usize) -> usize {
    if a + b > usize::MAX {
        usize::MAX
    } else {
        (a + b) as usize
    }
}

/// The state of the modulation loop: the jitter buffer, and whether the tail of a finished
/// transmission is still being drained.
pub struct TxFeed<T> {
    pub jitter: TxJitterBuffer<T>,
    pub draining: bool,
}

impl<T: Copy> TxFeed<T> {
    /// Empty, unprimed, not draining.
    pub fn new() -> (r: Self)
        ensures
            r.jitter.buf@ == Seq::<T>::empty(),
            !r.jitter.primed,
            r.jitter.silence_run == 0,
            r.jitter.prime_wait_samples == 0,
            !r.draining,
    {
        TxFeed { jitter: TxJitterBuffer::new(), draining: false }
    }

    /// Applies the transmitter's keying at the top of a loop turn. While keyed, nothing
    /// changes but the drain flag is cleared. When unkeyed, a primed non-empty buffer keeps
    /// draining through the modulator; once drained (or if nothing was ever primed) the buffer
    /// is reset and the loop idles. Returns whether the loop idles this turn.
    pub fn keying(&mut self, active: bool) -> (idle: bool)
        ensures
            ({
                let empty = old(self).jitter.buf@.len() == 0;
                let start_drain = !empty && old(self).jitter.primed;
                let j1 = final(self).jitter;
                let d1 = final(self).draining;
                &&& active ==> !idle && j1 == old(self).jitter && !d1
                &&& !active && start_drain ==> !idle && j1 == old(self).jitter && d1
                &&& !active && !start_drain && old(self).draining && !empty ==> !idle && j1
                    == old(self).jitter && d1
                &&& !active && !start_drain && (!old(self).draining || empty) ==> {
                    &&& idle
                    &&& !d1
                    &&& j1.buf@ == Seq::<T>::empty()
                    &&& !j1.primed
                    &&& j1.silence_run == 0
                    &&& j1.prime_wait_samples == 0
                }
            }),
    {
        if !active {
            let empty = self.jitter.buf.len() == 0;
            if !empty && self.jitter.primed {
                self.draining = true;
                false
            } else if self.draining && empty {
                self.draining = false;
                self.jitter.reset();
                true
            } else if !self.draining {
                self.jitter.reset();
                true
            } else {
                false
            }
        } else {
            self.draining = false;
            false
        }
    }

    /// Whether new network audio is taken in (not while draining a finished transmission).
    pub fn accepts_input(&self) -> (r: bool)
        ensures
            r == !self.draining,
    {
        !self.draining
    }

    /// Decides the next block once the turn's audio has been taken in: silence (and after
    /// `SILENCE_PARK` samples of it, a park) while empty; silence while still priming; otherwise
    /// the next drift-nudged block of audio.
    pub fn next_step(&mut self) -> (step: FeedStep<T>)
        ensures
            final(self).draining == old(self).draining,
            ({
                let j0 = old(self).jitter;
                let j1 = final(self).jitter;
                let len = j0.buf@.len();
                let run = sat_add(j0.silence_run, BLOCK);
                let wait = sat_add(j0.prime_wait_samples, BLOCK);
                let ready = j0.primed || len >= TARGET_DEPTH || wait >= SILENCE_PARK;
                let want = BLOCK + nudge_for(len as int);
                let n = if want < len { want } else { len as int };
                &&& len == 0 ==> {
                    &&& j1.buf@ == j0.buf@
                    &&& j1.silence_run == run
                    &&& j1.prime_wait_samples == j0.prime_wait_samples
                    &&& run >= SILENCE_PARK ==> step is Park && !j1.primed
                    &&& run < SILENCE_PARK ==> step is Silence && j1.primed == j0.primed
                }
                &&& len > 0 && ready ==> {
                    &&& j1.silence_run == 0
                    &&& j1.primed
                    &&& j1.prime_wait_samples == if j0.primed { j0.prime_wait_samples } else { 0 }
                    &&& step matches FeedStep::Audio(b) && b@ == j0.buf@.take(n)
                    &&& j1.buf@ == j0.buf@.skip(n)
                }
                &&& (step matches FeedStep::Audio(b) ==> b@.len() >= 1 && j1.primed)
                &&& len > 0 && !ready ==> {
                    &&& j1.silence_run == 0
                    &&& !j1.primed
                    &&& j1.prime_wait_samples == wait
                    &&& step is Silence
                    &&& j1.buf@ == j0.buf@
                }
            }),
    {
        if self.jitter.buf.len() == 0 {
            self.jitter.silence_run = self.jitter.silence_run.saturating_add(BLOCK);
            if self.jitter.silence_run >= SILENCE_PARK {
                self.jitter.primed = false;
                return FeedStep::Park;
            }
            return FeedStep::Silence;
        }
        self.jitter.silence_run = 0;
        if !self.jitter.primed {
            if self.jitter.buf.len() >= TARGET_DEPTH {
                self.jitter.primed = true;
                self.jitter.prime_wait_samples = 0;
            } else {
                self.jitter.prime_wait_samples = self.jitter.prime_wait_samples.saturating_add(
                    BLOCK,
                );
                if self.jitter.prime_wait_samples >= SILENCE_PARK {
                    self.jitter.primed = true;
                    self.jitter.prime_wait_samples = 0;
                } else {
                    return FeedStep::Silence;
                }
            }
        }
        let nudge = self.jitter.nudge();
        FeedStep::Audio(self.jitter.take_block(nudge))
    }

    /// Audio arrived after a park: it is buffered and the silence run restarts.
    pub fn resume(&mut self, chunk: Vec<T>) -> (dropped: usize)
        ensures
            dropped == trim_for(old(self).jitter.buf@.len() + chunk@.len() as int),
            final(self).jitter.buf@ == (old(self).jitter.buf@ + chunk@).skip(dropped as int),
            final(self).jitter.primed == old(self).jitter.primed,
            final(self).jitter.silence_run == 0,
            final(self).jitter.prime_wait_samples == old(self).jitter.prime_wait_samples,
            final(self).draining == old(self).draining,
    {
        let dropped = self.jitter.push_chunk(chunk);
        self.jitter.silence_run = 0;
        dropped
    }
}

} // verus!
