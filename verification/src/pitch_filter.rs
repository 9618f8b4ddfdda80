//! Per-ear biquad pair whose coefficients are recomputed every block from
//! head pitch.
//!
//! Pitch in radians becomes degrees, is clamped to thirty degrees either way
//! and scaled by one tenth into a gain in decibels; a high-shelf biquad at a
//! 5000 Hz corner for a 48000 Hz stream is derived from it with
//! `alpha = sin(w0) / 2 * 0.707` and normalized by its `a0`. A gain of zero
//! needs no correction and keeps the exact pass-through coefficients. The two
//! ears keep independent sample/output histories across blocks, so the filter
//! is stateful and call order matters.

use crate::sample_ops::sample_add;
use crate::sample_ops::sample_cos;
use crate::sample_ops::sample_div;
use crate::sample_ops::sample_from_usize;
use crate::sample_ops::sample_is_zero;
use crate::sample_ops::sample_max;
use crate::sample_ops::sample_min;
use crate::sample_ops::sample_mul;
use crate::sample_ops::sample_neg;
use crate::sample_ops::sample_one;
use crate::sample_ops::sample_pi;
use crate::sample_ops::sample_powf;
use crate::sample_ops::sample_sin;
use crate::sample_ops::sample_sqrt;
use crate::sample_ops::sample_sub;
use crate::sample_ops::sample_to_degrees;
use crate::sample_ops::sample_zero;
use vstd::prelude::*;

verus! {

/// One ear's biquad history taps.
pub struct BiquadState<T> {
    pub x1: T,
    pub x2: T,
    pub y1: T,
    pub y2: T,
}

/// Normalized coefficients and per-ear state of the pitch-correction filter.
pub struct PitchFilter<T> {
    pub b0: T,
    pub b1: T,
    pub b2: T,
    pub a1: T,
    pub a2: T,
    pub left_state: BiquadState<T>,
    pub right_state: BiquadState<T>,
}

impl<T: Copy + num_traits::Float + num_traits::FloatConst> PitchFilter<T> {
    /// Starts as an exact pass-through with silent histories.
    pub fn new() -> Self {
        PitchFilter {
            b0: sample_one(),
            b1: sample_zero(),
            b2: sample_zero(),
            a1: sample_zero(),
            a2: sample_zero(),
            left_state: BiquadState {
                x1: sample_zero(),
                x2: sample_zero(),
                y1: sample_zero(),
                y2: sample_zero(),
            },
            right_state: BiquadState {
                x1: sample_zero(),
                x2: sample_zero(),
                y1: sample_zero(),
                y2: sample_zero(),
            },
        }
    }

    /// Recomputes the five coefficients from the current head pitch; the ear
    /// histories carry over untouched.
    pub fn recompute(&mut self, pitch_radians: &T)
        ensures
            final(self).left_state == old(self).left_state,
            final(self).right_state == old(self).right_state,
    {
        let degrees = sample_to_degrees(pitch_radians);
        let thirty: T = sample_from_usize(30);
        let neg_thirty = sample_neg(&thirty);
        let clamped = sample_max(&sample_min(&degrees, &thirty), &neg_thirty);
        let ten: T = sample_from_usize(10);
        let one: T = sample_one();
        let tenth = sample_div(&one, &ten);
        let gain_db = sample_mul(&clamped, &tenth);

        if sample_is_zero(&gain_db) {
            // No correction owed: exact pass-through.
            self.b0 = one;
            self.b1 = sample_zero();
            self.b2 = sample_zero();
            self.a1 = sample_zero();
            self.a2 = sample_zero();
            return ;
        }
        let forty: T = sample_from_usize(40);
        let amp = sample_powf(&ten, &sample_div(&gain_db, &forty));

        let two: T = sample_from_usize(2);
        let pi: T = sample_pi();
        let corner = sample_div(&sample_from_usize(5000), &sample_from_usize(48000));
        let w0 = sample_mul(&sample_mul(&two, &pi), &corner);
        let cos_w0 = sample_cos(&w0);
        let sin_w0 = sample_sin(&w0);
        let q_factor = sample_div(&sample_from_usize(707), &sample_from_usize(1000));
        let alpha = sample_mul(&sample_div(&sin_w0, &two), &q_factor);

        let amp_plus = sample_add(&amp, &one);
        let amp_minus = sample_sub(&amp, &one);
        let two_sqrt_amp_alpha = sample_mul(&sample_mul(&two, &sample_sqrt(&amp)), &alpha);
        let minus_cos_term = sample_mul(&amp_minus, &cos_w0);
        let plus_cos_term = sample_mul(&amp_plus, &cos_w0);

        let b0_raw = sample_mul(
            &amp,
            &sample_add(&sample_sub(&amp_plus, &minus_cos_term), &two_sqrt_amp_alpha),
        );
        let b1_raw = sample_mul(
            &sample_neg(&two),
            &sample_mul(&amp, &sample_sub(&amp_minus, &plus_cos_term)),
        );
        let b2_raw = sample_mul(
            &amp,
            &sample_sub(&sample_sub(&amp_plus, &minus_cos_term), &two_sqrt_amp_alpha),
        );
        let a0_raw = sample_add(&sample_add(&amp_plus, &minus_cos_term), &two_sqrt_amp_alpha);
        let a1_raw = sample_mul(&two, &sample_add(&amp_minus, &plus_cos_term));
        let a2_raw = sample_sub(&sample_add(&amp_plus, &minus_cos_term), &two_sqrt_amp_alpha);

        self.b0 = sample_div(&b0_raw, &a0_raw);
        self.b1 = sample_div(&b1_raw, &a0_raw);
        self.b2 = sample_div(&b2_raw, &a0_raw);
        self.a1 = sample_div(&a1_raw, &a0_raw);
        self.a2 = sample_div(&a2_raw, &a0_raw);
    }

    /// Runs both ears' biquads in place over one stereo block; coefficients
    /// are untouched, and each ear's taps advance to the block's last two
    /// input samples and last two outputs.
    pub fn apply_stereo(&mut self, left: &mut Vec<T>, right: &mut Vec<T>)
        ensures
            final(left)@.len() == old(left)@.len(),
            final(right)@.len() == old(right)@.len(),
            final(self).b0 == old(self).b0,
            final(self).b1 == old(self).b1,
            final(self).b2 == old(self).b2,
            final(self).a1 == old(self).a1,
            final(self).a2 == old(self).a2,
            spec_taps_advanced(
                final(self).left_state,
                old(self).left_state,
                old(left)@,
                final(left)@,
            ),
            spec_taps_advanced(
                final(self).right_state,
                old(self).right_state,
                old(right)@,
                final(right)@,
            ),
    {
        let mut ls = BiquadState {
            x1: self.left_state.x1,
            x2: self.left_state.x2,
            y1: self.left_state.y1,
            y2: self.left_state.y2,
        };
        self.run_channel(&mut ls, left);
        self.left_state = ls;
        let mut rs = BiquadState {
            x1: self.right_state.x1,
            x2: self.right_state.x2,
            y1: self.right_state.y1,
            y2: self.right_state.y2,
        };
        self.run_channel(&mut rs, right);
        self.right_state = rs;
    }

    /// One ear: `y = b0 x + b1 x1 + b2 x2 - a1 y1 - a2 y2`, sliding the taps.
    fn run_channel(&self, state: &mut BiquadState<T>, samples: &mut Vec<T>)
        ensures
            final(samples)@.len() == old(samples)@.len(),
            spec_taps_advanced(*final(state), *old(state), old(samples)@, final(samples)@),
    {
        let n = samples.len();
        let mut i: usize = 0;
        while i < n
            invariant
                i <= n,
                samples@.len() == n,
                n == old(samples)@.len(),
                forall|k: int| i <= k < n ==> samples@[k] == old(samples)@[k],
                i == 0 ==> *state == *old(state),
                i >= 1 ==> state.x1 == old(samples)@[i - 1] && state.y1 == samples@[i - 1],
                i == 1 ==> state.x2 == old(state).x1 && state.y2 == old(state).y1,
                i >= 2 ==> state.x2 == old(samples)@[i - 2] && state.y2 == samples@[i - 2],
            decreases n - i,
        {
            let x = samples[i];
            let fwd = sample_add(
                &sample_add(
                    &sample_mul(&self.b0, &x),
                    &sample_mul(&self.b1, &state.x1),
                ),
                &sample_mul(&self.b2, &state.x2),
            );
            let fb = sample_add(
                &sample_mul(&self.a1, &state.y1),
                &sample_mul(&self.a2, &state.y2),
            );
            let y = sample_sub(&fwd, &fb);
            samples.set(i, y);
            state.x2 = state.x1;
            state.x1 = x;
            state.y2 = state.y1;
            state.y1 = y;
            i += 1;
        }
    }
}

/// How one block advances an ear's taps: afterwards the input taps hold the
/// block's last two incoming samples and the output taps its last two
/// filtered samples; a one-sample block pushes the old first taps down, and
/// an empty block leaves the taps alone.
pub open spec fn spec_taps_advanced<T>(
    post: BiquadState<T>,
    pre: BiquadState<T>,
    input: Seq<T>,
    output: Seq<T>,
) -> bool {
    let n = input.len() as int;
    &&& n == 0 ==> post == pre
    &&& n >= 1 ==> post.x1 == input[n - 1] && post.y1 == output[n - 1]
    &&& n == 1 ==> post.x2 == pre.x1 && post.y2 == pre.y1
    &&& n >= 2 ==> post.x2 == input[n - 2] && post.y2 == output[n - 2]
}

} // verus!
