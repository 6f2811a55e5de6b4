//! The adaptive energy classifier and the per-channel frame walk.
//!
//! All quantities are exact. A sample's energy is its square, an
//! integer. A frame threshold is the exact rational
//! `(min + (max - min) * threshold_num / threshold_den)` over the
//! frame's energies; it is carried as its numerator over the fixed
//! denominator `threshold_den`. The running threshold after `n` frames
//! is the exact rational `threshold_sum / (n * threshold_den)`, the
//! arithmetic mean of the per-frame thresholds, and the silence test
//! compares the frame's mean energy against it by cross-multiplication,
//! so no comparison is ever rounded.
//!
//! The classifier only compares energies against fractions of energies,
//! and both sides of each comparison scale by the square of any common
//! factor applied to the samples. Its verdicts on raw integer samples
//! are therefore the verdicts on the samples normalized into [-1, 1]
//! (see the codec module), and the pipeline runs on raw samples.

use vstd::prelude::*;
use vstd::arithmetic::div_mod::lemma_div_is_ordered;
use vstd::arithmetic::div_mod::lemma_div_multiples_vanish;
use vstd::arithmetic::div_mod::lemma_fundamental_div_mod;
use vstd::arithmetic::div_mod::lemma_mod_bound;
use vstd::arithmetic::div_mod::lemma_mod_multiples_basic;
use vstd::arithmetic::mul::lemma_mul_inequality;
use vstd::arithmetic::mul::lemma_mul_upper_bound;
use crate::config::VadConfig;

verus! {

/// Largest per-channel sample count a scan accepts; far beyond what a
/// real container can hold, it bounds the frame count so that the
/// running threshold sum stays inside `u128`.
pub const MAX_SAMPLES: usize = 0x40000000;

/// The squared value of one sample: its energy, exactly.
pub open spec fn sq(s: i32) -> int {
    (s as int) * (s as int)
}

/// Sum of the energies of a frame's samples.
pub open spec fn frame_energy(frame: Seq<i32>) -> int
    decreases frame.len(),
{
    if frame.len() == 0 {
        0
    } else {
        frame_energy(frame.drop_last()) + sq(frame.last())
    }
}

/// Least energy in a frame (0 for an empty frame).
pub open spec fn frame_min_sq(frame: Seq<i32>) -> int
    decreases frame.len(),
{
    if frame.len() == 0 {
        0
    } else if frame.len() == 1 {
        sq(frame[0])
    } else {
        let m = frame_min_sq(frame.drop_last());
        if sq(frame.last()) < m {
            sq(frame.last())
        } else {
            m
        }
    }
}

/// Greatest energy in a frame (0 for an empty frame).
pub open spec fn frame_max_sq(frame: Seq<i32>) -> int
    decreases frame.len(),
{
    if frame.len() == 0 {
        0
    } else if frame.len() == 1 {
        sq(frame[0])
    } else {
        let m = frame_max_sq(frame.drop_last());
        if sq(frame.last()) > m {
            sq(frame.last())
        } else {
            m
        }
    }
}

/// Numerator, over `threshold_den`, of the frame's threshold
/// `min + (max - min) * threshold_num / threshold_den`.
pub open spec fn frame_threshold_num(cfg: VadConfig, frame: Seq<i32>) -> int {
    frame_min_sq(frame) * cfg.threshold_den
        + (frame_max_sq(frame) - frame_min_sq(frame)) * cfg.threshold_num
}

/// The classifier's running state: the consecutive-silent-frame count,
/// the sum of the per-frame threshold numerators, and the number of
/// frames classified so far. The running threshold is the exact
/// rational `threshold_sum / (frames_seen * threshold_den)`.
pub struct DetectorState {
    pub silence_counter: int,
    pub threshold_sum: int,
    pub frames_seen: int,
}

/// The state of a freshly created detector.
pub open spec fn init_state() -> DetectorState {
    DetectorState { silence_counter: 0, threshold_sum: 0, frames_seen: 0 }
}

/// Whether a frame's mean energy is at or below the running threshold
/// as updated by that same frame: the exact comparison
/// `energy / len <= (threshold_sum + t) / ((n + 1) * den)`,
/// cross-multiplied into integers.
pub open spec fn frame_is_silent(cfg: VadConfig, st: DetectorState, frame: Seq<i32>) -> bool {
    frame_energy(frame) * ((st.frames_seen + 1) * cfg.threshold_den)
        <= (st.threshold_sum + frame_threshold_num(cfg, frame)) * frame.len()
}

/// The classifier's state after one frame: the frame's threshold joins
/// the running mean, and the silence counter is incremented on a silent
/// frame and reset on a voiced one.
pub open spec fn step_state(cfg: VadConfig, st: DetectorState, frame: Seq<i32>) -> DetectorState {
    DetectorState {
        silence_counter: if frame_is_silent(cfg, st, frame) {
            st.silence_counter + 1
        } else {
            0
        },
        threshold_sum: st.threshold_sum + frame_threshold_num(cfg, frame),
        frames_seen: st.frames_seen + 1,
    }
}

/// The verdict returned for the frame: voiced while the silent run is
/// within the hangover limit.
pub open spec fn step_voiced(cfg: VadConfig, st: DetectorState, frame: Seq<i32>) -> bool {
    step_state(cfg, st, frame).silence_counter <= cfg.silence_frame_limit
}

/// Sum of a sequence of integers.
pub open spec fn seq_sum(s: Seq<int>) -> int
    decreases s.len(),
{
    if s.len() == 0 {
        0
    } else {
        seq_sum(s.drop_last()) + s.last()
    }
}

/// A sequence whose members all lie in `[0, b]` sums to a value in
/// `[0, len * b]`.
proof fn lemma_seq_sum_bounds(s: Seq<int>, b: int)
    requires
        forall|i: int| 0 <= i < s.len() ==> 0 <= #[trigger] s[i] <= b,
    ensures
        0 <= seq_sum(s) <= s.len() * b,
    decreases s.len(),
{
    if s.len() == 0 {
    } else {
        lemma_seq_sum_bounds(s.drop_last(), b);
        assert(s.last() == s[s.len() - 1]);
        assert((s.len() - 1) * b + b == s.len() * b) by (nonlinear_arith);
    }
}

/// Appending a member adds it to the sum.
proof fn lemma_seq_sum_push(s: Seq<int>, x: int)
    ensures
        seq_sum(s.push(x)) == seq_sum(s) + x,
{
    assert(s.push(x).drop_last() =~= s);
    assert(s.push(x).last() == x);
}

/// Removing a member takes it out of the sum.
proof fn lemma_seq_sum_remove(s: Seq<int>, j: int)
    requires
        0 <= j < s.len(),
    ensures
        seq_sum(s.remove(j)) == seq_sum(s) - s[j],
    decreases s.len(),
{
    if j == s.len() - 1 {
        assert(s.remove(j) =~= s.drop_last());
    } else {
        lemma_seq_sum_remove(s.drop_last(), j);
        assert(s.remove(j).drop_last() =~= s.drop_last().remove(j));
        assert(s.remove(j).last() == s.last());
    }
}

/// The sum of a sequence depends only on its multiset of members: two
/// orderings of the same per-frame thresholds end in the same
/// threshold sum, and so in the same final running mean, though the
/// intermediate means differ.
pub proof fn lemma_seq_sum_permutation(s1: Seq<int>, s2: Seq<int>)
    requires
        s1.to_multiset() == s2.to_multiset(),
    ensures
        seq_sum(s1) == seq_sum(s2),
    decreases s1.len(),
{
    broadcast use vstd::seq_lib::group_to_multiset_ensures;

    if s1.len() == 0 {
        assert(s2.to_multiset().len() == 0);
    } else {
        let x = s1.last();
        assert(s1[s1.len() - 1] == x);
        assert(s1.to_multiset().count(x) > 0);
        assert(s2.contains(x));
        let j = choose|j: int| 0 <= j < s2.len() && s2[j] == x;
        assert(s1.remove(s1.len() - 1) =~= s1.drop_last());
        assert(s1.drop_last().to_multiset() == s2.remove(j).to_multiset());
        lemma_seq_sum_permutation(s1.drop_last(), s2.remove(j));
        lemma_seq_sum_remove(s2, j);
    }
}

/// A stateful per-channel voice-activity classifier.
pub struct VoiceActivityDetector {
    config: VadConfig,
    silence_counter: u64,
    threshold_sum: u128,
    frames_seen: u64,
    history: Ghost<Seq<int>>,
}

impl VoiceActivityDetector {
    /// The configuration this detector was created with.
    pub closed spec fn config(self) -> VadConfig {
        self.config
    }

    /// The classifier state, as exact integers.
    pub closed spec fn state(self) -> DetectorState {
        DetectorState {
            silence_counter: self.silence_counter as int,
            threshold_sum: self.threshold_sum as int,
            frames_seen: self.frames_seen as int,
        }
    }

    /// The threshold numerators of the frames classified so far, in
    /// order of classification.
    pub closed spec fn history(self) -> Seq<int> {
        self.history@
    }

    /// Internal invariant: the configuration is well formed, the silent
    /// run cannot exceed the number of frames seen, and the threshold
    /// sum is exactly the sum of the recorded per-frame thresholds,
    /// each of which is at most `threshold_den` times the largest
    /// sample energy.
    pub closed spec fn wf(self) -> bool {
        &&& self.config.wf()
        &&& self.frames_seen <= MAX_SAMPLES
        &&& self.silence_counter <= self.frames_seen
        &&& self.history@.len() == self.frames_seen
        &&& self.threshold_sum as int == seq_sum(self.history@)
        &&& forall|i: int|
            0 <= i < self.history@.len() ==> 0 <= #[trigger] self.history@[i]
                <= (self.config.threshold_den as int) * 0x4000000000000000
    }

    /// A fresh detector: no frames seen, threshold sum zero, no silent
    /// run.
    pub fn new(config: VadConfig) -> (d: VoiceActivityDetector)
        requires
            config.wf(),
        ensures
            d.wf(),
            d.config() == config,
            d.state() == init_state(),
            d.history() == Seq::<int>::empty(),
    {
        VoiceActivityDetector {
            config,
            silence_counter: 0,
            threshold_sum: 0,
            frames_seen: 0,
            history: Ghost(Seq::empty()),
        }
    }

    /// The current consecutive-silent-frame count.
    pub fn silence_count(&self) -> (c: u64)
        ensures
            c as int == self.state().silence_counter,
    {
        self.silence_counter
    }

    /// The number of frames classified so far.
    pub fn frames_seen(&self) -> (n: u64)
        ensures
            n as int == self.state().frames_seen,
    {
        self.frames_seen
    }

    /// The sum of the per-frame threshold numerators seen so far; the
    /// running threshold is this value over
    /// `frames_seen * threshold_den`.
    pub fn threshold_sum(&self) -> (t: u128)
        ensures
            t as int == self.state().threshold_sum,
    {
        self.threshold_sum
    }

    /// Classifies the frame of `frame_size` samples starting at `start`
    /// and updates the running state, exactly as `step_state` and
    /// `step_voiced` describe.
    pub fn is_voice(&mut self, samples: &Vec<i32>, start: usize) -> (voiced: bool)
        requires
            old(self).wf(),
            old(self).state().frames_seen < MAX_SAMPLES as int,
            start + old(self).config().frame_size <= samples@.len(),
        ensures
            final(self).wf(),
            final(self).config() == old(self).config(),
            final(self).state() == step_state(
                old(self).config(),
                old(self).state(),
                samples@.subrange(
                    start as int,
                    start as int + old(self).config().frame_size as int,
                ),
            ),
            voiced == step_voiced(
                old(self).config(),
                old(self).state(),
                samples@.subrange(
                    start as int,
                    start as int + old(self).config().frame_size as int,
                ),
            ),
            final(self).history() == old(self).history().push(
                frame_threshold_num(
                    old(self).config(),
                    samples@.subrange(
                        start as int,
                        start as int + old(self).config().frame_size as int,
                    ),
                ),
            ),
    {
        let frame_size = self.config.frame_size;
        let len = samples.len();
        let end = start + frame_size;
        let ghost frame = samples@.subrange(start as int, end as int);

        // One pass over the frame: energies, their running sum, and the
        // least and greatest energy.
        let mut j: usize = start;
        let mut sum: u128 = 0;
        let mut mn: u64 = 0;
        let mut mx: u64 = 0;
        while j < end
            invariant
                start <= j <= end,
                end == start + frame_size,
                end <= len,
                len == samples@.len(),
                1 <= frame_size <= crate::config::MAX_WINDOW,
                frame == samples@.subrange(start as int, end as int),
                sum as int == frame_energy(frame.subrange(0, j - start)),
                sum <= (j - start) * 0x4000000000000000,
                j > start ==> mn as int == frame_min_sq(frame.subrange(0, j - start)),
                j > start ==> mx as int == frame_max_sq(frame.subrange(0, j - start)),
                j > start ==> mn <= mx && mx <= 0x4000000000000000,
            decreases end - j,
        {
            let s = samples[j];
            proof {
                assert(0 <= (s as int) * (s as int) <= 0x4000000000000000) by (nonlinear_arith)
                    requires
                        -0x80000000 <= s as int <= 0x7fffffff,
                ;
                assert(frame[j - start] == samples@[j as int]);
            }
            let v: i64 = s as i64;
            let sqv: u64 = (v * v) as u64;
            if j == start {
                mn = sqv;
                mx = sqv;
            } else {
                if sqv < mn {
                    mn = sqv;
                }
                if sqv > mx {
                    mx = sqv;
                }
            }
            sum = sum + sqv as u128;
            proof {
                assert(frame.subrange(0, j + 1 - start).drop_last() =~= frame.subrange(
                    0,
                    j - start,
                ));
                assert(frame.subrange(0, j + 1 - start).last() == frame[j - start]);
                if j > start {
                    assert(frame.subrange(0, j + 1 - start)[0] == frame[0]);
                }
            }
            j = j + 1;
        }
        proof {
            assert(frame.subrange(0, frame_size as int) =~= frame);
        }

        // The frame's threshold numerator, over `threshold_den`.
        let den: u128 = self.config.threshold_den as u128;
        let num: u128 = self.config.threshold_num as u128;
        proof {
            lemma_mul_upper_bound(mn as int, 0x4000000000000000, den as int, 1024);
            lemma_mul_upper_bound((mx - mn) as int, 0x4000000000000000, num as int, 1024);
            assert((mn as int) * (den as int) + ((mx - mn) as int) * (num as int) <= (
            den as int) * 0x4000000000000000) by (nonlinear_arith)
                requires
                    0 <= mn as int <= mx as int <= 0x4000000000000000,
                    0 < num as int,
                    (num as int) < (den as int),
            ;
            assert(0 <= (mn as int) * (den as int)) by (nonlinear_arith)
                requires
                    0 <= mn as int,
                    0 <= den as int,
            ;
        }
        let thd_num: u128 = (mn as u128) * den + ((mx - mn) as u128) * num;

        // Fold the frame's threshold into the running mean.
        let n2: u64 = self.frames_seen + 1;
        proof {
            lemma_seq_sum_bounds(self.history@, (den as int) * 0x4000000000000000);
            lemma_mul_upper_bound(
                self.history@.len() as int,
                0x3fffffff,
                (den as int) * 0x4000000000000000,
                1024int * 0x4000000000000000,
            );
            assert(0x3fffffff * (1024int * 0x4000000000000000) + 1024int * 0x4000000000000000
                == 0x40000000 * (1024int * 0x4000000000000000));
        }
        let ts2: u128 = self.threshold_sum + thd_num;

        // Exact comparison of the frame's mean energy with the updated
        // running threshold, by cross-multiplication.
        proof {
            lemma_mul_upper_bound(n2 as int, 0x40000000, den as int, 1024);
            lemma_mul_upper_bound(
                sum as int,
                0x100000int * 0x4000000000000000,
                (n2 as int) * (den as int),
                0x40000000int * 1024,
            );
            lemma_mul_upper_bound(
                ts2 as int,
                0x40000000 * 1024int * 0x4000000000000000,
                frame_size as int,
                0x100000,
            );
        }
        let lhs: u128 = sum * ((n2 as u128) * den);
        let rhs: u128 = ts2 * (frame_size as u128);
        let silent = lhs <= rhs;

        if silent {
            self.silence_counter = self.silence_counter + 1;
        } else {
            self.silence_counter = 0;
        }
        self.threshold_sum = ts2;
        self.frames_seen = n2;
        proof {
            lemma_seq_sum_push(self.history@, thd_num as int);
        }
        self.history = Ghost(self.history@.push(thd_num as int));

        self.silence_counter <= self.config.silence_frame_limit as u64
    }

    /// Walks the channel in steps of `step_size`, classifying the
    /// frame of `frame_size` samples at each position while a full
    /// frame remains, and returns the starting indices of the frames
    /// classified voiced, in temporal order.
    pub fn process_channel(&mut self, samples: &Vec<i32>) -> (voice_frames: Vec<usize>)
        requires
            old(self).wf(),
            old(self).state() == init_state(),
            samples@.len() <= MAX_SAMPLES,
        ensures
            final(self).wf(),
            final(self).config() == old(self).config(),
            final(self).state() == scan_state(
                old(self).config(),
                samples@,
                init_state(),
                num_frames(old(self).config(), samples@.len() as int),
            ),
            idx_view(voice_frames@) == spec_scan(old(self).config(), samples@),
    {
        let ghost cfg = self.config;
        let frame_size = self.config.frame_size;
        let step = self.config.step_size;
        let len = samples.len();
        let estimated = len / step;
        let mut voice_frames: Vec<usize> = Vec::with_capacity(estimated);
        let mut i: usize = 0;
        let ghost mut k: int = 0;
        while i + frame_size <= len
            invariant
                self.wf(),
                self.config == cfg,
                cfg.wf(),
                len == samples@.len(),
                len <= MAX_SAMPLES,
                frame_size == cfg.frame_size,
                step == cfg.step_size,
                0 <= k <= num_frames(cfg, len as int),
                i == k * step,
                i <= len + step,
                k > 0 ==> (k - 1) * step + frame_size <= len,
                self.state() == scan_state(cfg, samples@, init_state(), k),
                self.state().frames_seen == k,
                idx_view(voice_frames@) == scan_indices(cfg, samples@, init_state(), k),
            decreases len + step - i,
        {
            proof {
                lemma_frame_pos(cfg, len as int, k);
                assert(k <= k * step) by (nonlinear_arith)
                    requires
                        k >= 0,
                        step >= 1,
                ;
            }
            let voiced = self.is_voice(samples, i);
            proof {
                assert(samples@.subrange(i as int, i as int + frame_size as int) =~= frame_at(
                    cfg,
                    samples@,
                    k,
                ));
            }
            if voiced {
                voice_frames.push(i);
                proof {
                    assert(idx_view(voice_frames@) =~= scan_indices(
                        cfg,
                        samples@,
                        init_state(),
                        k + 1,
                    ));
                }
            }
            proof {
                assert((k + 1) * step == k * step + step) by (nonlinear_arith);
            }
            i = i + step;
            proof {
                k = k + 1;
            }
        }
        proof {
            lemma_frame_pos(cfg, len as int, k);
            assert(k == num_frames(cfg, len as int));
        }
        voice_frames
    }
}

/// The sequence of starting indices, as mathematical integers.
pub open spec fn idx_view(v: Seq<usize>) -> Seq<int> {
    v.map_values(|x: usize| x as int)
}

/// How many frames a channel of `len` samples yields: windows of
/// `frame_size` samples starting at multiples of `step_size`, a
/// trailing window shorter than `frame_size` never being evaluated.
pub open spec fn num_frames(cfg: VadConfig, len: int) -> int {
    if len < cfg.frame_size {
        0
    } else {
        (len - cfg.frame_size) / (cfg.step_size as int) + 1
    }
}

/// The `k`-th frame of a channel: `frame_size` samples starting at
/// `k * step_size`.
pub open spec fn frame_at(cfg: VadConfig, ch: Seq<i32>, k: int) -> Seq<i32> {
    ch.subrange(k * cfg.step_size, k * cfg.step_size + cfg.frame_size)
}

/// The classifier state after walking the first `k` frames of the
/// channel, starting from `st0`.
pub open spec fn scan_state(cfg: VadConfig, ch: Seq<i32>, st0: DetectorState, k: int) -> DetectorState
    decreases k,
{
    if k <= 0 {
        st0
    } else {
        step_state(cfg, scan_state(cfg, ch, st0, k - 1), frame_at(cfg, ch, k - 1))
    }
}

/// The starting indices of the frames among the first `k` that are
/// classified voiced, in temporal order.
pub open spec fn scan_indices(cfg: VadConfig, ch: Seq<i32>, st0: DetectorState, k: int) -> Seq<int>
    decreases k,
{
    if k <= 0 {
        Seq::empty()
    } else {
        let prev = scan_indices(cfg, ch, st0, k - 1);
        if step_voiced(cfg, scan_state(cfg, ch, st0, k - 1), frame_at(cfg, ch, k - 1)) {
            prev.push((k - 1) * (cfg.step_size as int))
        } else {
            prev
        }
    }
}

/// The voiced-frame index list of a full scan of the channel by a
/// fresh detector.
pub open spec fn spec_scan(cfg: VadConfig, ch: Seq<i32>) -> Seq<int> {
    scan_indices(cfg, ch, init_state(), num_frames(cfg, ch.len() as int))
}

/// A frame fits at position `k * step_size` exactly when `k` is below
/// the channel's frame count.
proof fn lemma_frame_pos(cfg: VadConfig, len: int, k: int)
    requires
        cfg.wf(),
        0 <= k,
    ensures
        (k * cfg.step_size + cfg.frame_size <= len) <==> (k < num_frames(cfg, len)),
{
    let s = cfg.step_size as int;
    let f = cfg.frame_size as int;
    if len < f {
        assert(k * s >= 0) by (nonlinear_arith)
            requires
                k >= 0,
                s >= 1,
        ;
    } else {
        let q = (len - f) / s;
        let r = (len - f) % s;
        lemma_fundamental_div_mod(len - f, s);
        lemma_mod_bound(len - f, s);
        if k <= q {
            lemma_mul_inequality(k, q, s);
            assert(q * s == s * q) by (nonlinear_arith);
        }
        if k * s + f <= len {
            lemma_div_is_ordered(k * s, len - f, s);
            lemma_div_multiples_vanish(k, s);
            assert(s * k == k * s) by (nonlinear_arith);
        }
    }
}

/// Properties of the index list of a partial scan: every index is a
/// non-negative multiple of `step_size`, below `k * step_size`, its
/// frame lies inside the channel, and the list is strictly increasing.
proof fn lemma_scan_indices_props(cfg: VadConfig, ch: Seq<i32>, st0: DetectorState, k: int)
    requires
        cfg.wf(),
        0 <= k <= num_frames(cfg, ch.len() as int),
    ensures
        forall|a: int|
            0 <= a < scan_indices(cfg, ch, st0, k).len() ==> {
                let x = #[trigger] scan_indices(cfg, ch, st0, k)[a];
                &&& 0 <= x
                &&& x <= (k - 1) * cfg.step_size
                &&& x % (cfg.step_size as int) == 0
                &&& x + cfg.frame_size <= ch.len()
            },
        forall|a: int, b: int|
            0 <= a < b < scan_indices(cfg, ch, st0, k).len()
                ==> #[trigger] scan_indices(cfg, ch, st0, k)[a]
                < #[trigger] scan_indices(cfg, ch, st0, k)[b],
    decreases k,
{
    let s = cfg.step_size as int;
    if k <= 0 {
    } else {
        lemma_scan_indices_props(cfg, ch, st0, k - 1);
        let prev = scan_indices(cfg, ch, st0, k - 1);
        assert((k - 2) * s + s == (k - 1) * s) by (nonlinear_arith);
        assert(0 <= (k - 1) * s) by (nonlinear_arith)
            requires
                k >= 1,
                s >= 1,
        ;
        lemma_mod_multiples_basic(k - 1, s);
        assert((k - 1) * s == s * (k - 1)) by (nonlinear_arith);
        lemma_frame_pos(cfg, ch.len() as int, k - 1);
    }
}

/// Index ordering: the voiced-frame index list of a scan is strictly
/// increasing, each index is a non-negative multiple of `step_size`,
/// and each indexed frame lies entirely inside the channel.
pub proof fn lemma_scan_indices_ordered(cfg: VadConfig, ch: Seq<i32>)
    requires
        cfg.wf(),
    ensures
        forall|a: int, b: int|
            0 <= a < b < spec_scan(cfg, ch).len()
                ==> #[trigger] spec_scan(cfg, ch)[a] < #[trigger] spec_scan(cfg, ch)[b],
        forall|a: int|
            0 <= a < spec_scan(cfg, ch).len() ==> {
                let x = #[trigger] spec_scan(cfg, ch)[a];
                &&& 0 <= x
                &&& x % (cfg.step_size as int) == 0
                &&& x + cfg.frame_size <= ch.len()
            },
{
    let nf = num_frames(cfg, ch.len() as int);
    if ch.len() < cfg.frame_size {
    } else {
        vstd::arithmetic::div_mod::lemma_div_pos_is_pos(
            ch.len() - cfg.frame_size,
            cfg.step_size as int,
        );
    }
    lemma_scan_indices_props(cfg, ch, init_state(), nf);
}

/// Hangover behaviour of one classification step: a silent frame
/// lengthens the silent run by exactly one, a voiced frame resets it to
/// zero.
pub proof fn lemma_hangover_monotonicity(cfg: VadConfig, st: DetectorState, frame: Seq<i32>)
    ensures
        frame_is_silent(cfg, st, frame) ==> step_state(cfg, st, frame).silence_counter == st.silence_counter + 1,
        !frame_is_silent(cfg, st, frame) ==> step_state(cfg, st, frame).silence_counter == 0,
{
}

/// Running-mean correctness: a well-formed detector's threshold sum is
/// exactly the sum of the per-frame threshold numerators it has
/// recorded, one per frame seen. As an exact rational the running
/// threshold `threshold_sum / (frames_seen * threshold_den)` is
/// therefore the arithmetic mean of the per-frame thresholds
/// `history[i] / threshold_den`.
pub proof fn lemma_running_mean(d: VoiceActivityDetector)
    requires
        d.wf(),
    ensures
        d.state().threshold_sum == seq_sum(d.history()),
        d.state().frames_seen == d.history().len(),
{
}

} // verus!
