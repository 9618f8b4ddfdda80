//! Spatial rendering of a multichannel source block into binaural stereo,
//! steered by live head orientation.
//!
//! The virtualizer owns a bank of binaural convolvers per steerable source
//! slot, one convolver per measured head-related impulse response direction,
//! plus one dedicated non-steered convolver for the low-frequency channel and
//! a pitch-correction filter. Each block, every source channel is steered by
//! its nominal direction minus the head yaw, rendered through the two nearest
//! measured directions, and the two rendered outputs are blended linearly —
//! interpolation happens on rendered output, not on filter coefficients, a
//! deliberately cheap and not phase-accurate design.

use crate::audio_data::copy_samples;
use crate::audio_data::AudioData;
use crate::block_convolver::BlockConvolver;
use crate::pitch_filter::PitchFilter;
use crate::sample_ops::sample_add;
use crate::sample_ops::sample_div;
use crate::sample_ops::sample_from_usize;
use crate::sample_ops::sample_mul;
use crate::sample_ops::sample_one;
use crate::sample_ops::sample_sqrt;
use crate::sample_ops::sample_sub;
use crate::sample_ops::sample_to_degrees;
use crate::sample_ops::sample_to_i64;
use crate::sample_ops::sample_zero;
use crate::sample_ops::wav_to_pcm;
use vstd::prelude::*;

verus! {

/// Millidegrees in a full turn; all azimuths live in `[0, TURN_MDEG)`.
pub const TURN_MDEG: u32 = 360000;

/// Circular distance between two azimuths, in millidegrees.
pub open spec fn circ_dist(a: int, b: int) -> int {
    let d = if a >= b {
        a - b
    } else {
        b - a
    };
    if d <= 360000 - d {
        d
    } else {
        360000 - d
    }
}

/// Circular distance, executable form.
pub fn circular_distance(a: u32, b: u32) -> (d: u32)
    requires
        a < TURN_MDEG,
        b < TURN_MDEG,
    ensures
        d == circ_dist(a as int, b as int),
        d <= 180000,
{
    let raw = if a >= b {
        a - b
    } else {
        b - a
    };
    if raw <= TURN_MDEG - raw {
        raw
    } else {
        TURN_MDEG - raw
    }
}

/// `i0` and `i1` are the two direction indices a nearest-first scan picks
/// for `target`: `i0` the first index of minimal circular distance, `i1`
/// the first minimal one among the others.
pub open spec fn spec_nearest_pair(azimuths: Seq<u32>, target: int, i0: int, i1: int) -> bool {
    &&& 0 <= i0 < azimuths.len()
    &&& 0 <= i1 < azimuths.len()
    &&& i0 != i1
    &&& forall|j: int|
        0 <= j < azimuths.len() ==> (#[trigger] circ_dist(target, azimuths[j] as int))
            >= circ_dist(target, azimuths[i0] as int)
    &&& forall|j: int|
        0 <= j < i0 ==> (#[trigger] circ_dist(target, azimuths[j] as int)) > circ_dist(
            target,
            azimuths[i0] as int,
        )
    &&& forall|j: int|
        0 <= j < azimuths.len() && j != i0 ==> (#[trigger] circ_dist(target, azimuths[j] as int))
            >= circ_dist(target, azimuths[i1] as int)
    &&& forall|j: int|
        0 <= j < i1 && j != i0 ==> (#[trigger] circ_dist(target, azimuths[j] as int)) > circ_dist(
            target,
            azimuths[i1] as int,
        )
}

/// Picks the two measured directions nearest to `target` and the
/// interpolation ratio between them.
///
/// The first index is the first direction of minimal circular distance to the
/// target; the second is the first minimal one among the others. The ratio is
/// returned as a fraction: distance from the target to the nearest direction,
/// over the circular span between the two chosen directions (a span of zero
/// marks a degenerate duplicate direction and the caller blends nothing).
pub fn find_nearest_hrirs(azimuths: &Vec<u32>, target: u32) -> (r: (usize, usize, u32, u32))
    requires
        azimuths@.len() >= 2,
        forall|k: int| 0 <= k < azimuths@.len() ==> azimuths@[k] < TURN_MDEG,
        target < TURN_MDEG,
    ensures
        r.0 < azimuths@.len(),
        r.1 < azimuths@.len(),
        r.0 != r.1,
        forall|j: int|
            0 <= j < azimuths@.len() ==> (#[trigger] circ_dist(target as int, azimuths@[j] as int))
                >= circ_dist(target as int, azimuths@[r.0 as int] as int),
        forall|j: int|
            0 <= j < r.0 ==> (#[trigger] circ_dist(target as int, azimuths@[j] as int))
                > circ_dist(target as int, azimuths@[r.0 as int] as int),
        forall|j: int|
            0 <= j < azimuths@.len() && j != r.0 ==> (#[trigger] circ_dist(
                target as int,
                azimuths@[j] as int,
            )) >= circ_dist(target as int, azimuths@[r.1 as int] as int),
        forall|j: int|
            0 <= j < r.1 && j != r.0 ==> (#[trigger] circ_dist(target as int, azimuths@[j] as int))
                > circ_dist(target as int, azimuths@[r.1 as int] as int),
        r.2 == circ_dist(target as int, azimuths@[r.0 as int] as int),
        r.3 == circ_dist(azimuths@[r.0 as int] as int, azimuths@[r.1 as int] as int),
        spec_nearest_pair(azimuths@, target as int, r.0 as int, r.1 as int),
    {
    let n = azimuths.len();
    let mut idx0: usize = 0;
    let mut best0: u32 = circular_distance(target, azimuths[0]);
    let mut j: usize = 1;
    while j < n
        invariant
            n == azimuths@.len(),
            n >= 2,
            forall|k: int| 0 <= k < n ==> azimuths@[k] < TURN_MDEG,
            target < TURN_MDEG,
            1 <= j <= n,
            idx0 < j,
            best0 == circ_dist(target as int, azimuths@[idx0 as int] as int),
            forall|k: int|
                0 <= k < j ==> (#[trigger] circ_dist(target as int, azimuths@[k] as int)) >= best0,
            forall|k: int|
                0 <= k < idx0 ==> (#[trigger] circ_dist(target as int, azimuths@[k] as int))
                    > best0,
        decreases n - j,
    {
        let d = circular_distance(target, azimuths[j]);
        if d < best0 {
            best0 = d;
            idx0 = j;
        }
        j += 1;
    }

    let mut idx1: usize = if idx0 == 0 {
        1
    } else {
        0
    };
    let mut best1: u32 = circular_distance(target, azimuths[idx1]);
    let mut j: usize = idx1 + 1;
    while j < n
        invariant
            n == azimuths@.len(),
            n >= 2,
            forall|k: int| 0 <= k < n ==> azimuths@[k] < TURN_MDEG,
            target < TURN_MDEG,
            idx0 < n,
            idx1 < n,
            idx1 != idx0,
            idx1 <= j,
            (if idx0 == 0 {
                1int
            } else {
                0int
            }) <= j <= n,
            best1 == circ_dist(target as int, azimuths@[idx1 as int] as int),
            forall|k: int|
                0 <= k < j && k != idx0 ==> (#[trigger] circ_dist(
                    target as int,
                    azimuths@[k] as int,
                )) >= best1,
            forall|k: int|
                0 <= k < idx1 && k != idx0 ==> (#[trigger] circ_dist(
                    target as int,
                    azimuths@[k] as int,
                )) > best1,
        decreases n - j,
    {
        if j != idx0 {
            let d = circular_distance(target, azimuths[j]);
            if d < best1 {
                best1 = d;
                idx1 = j;
            }
        }
        j += 1;
    }

    let span = circular_distance(azimuths[idx0], azimuths[idx1]);
    (idx0, idx1, best0, span)
}

/// The blend ratio as a scalar: `num / den`, or zero for a degenerate span.
pub fn interp_frac<T: Copy + num_traits::Float>(num: u32, den: u32) -> T {
    if den == 0 {
        sample_zero()
    } else {
        let n: T = sample_from_usize(num as usize);
        let d: T = sample_from_usize(den as usize);
        sample_div(&n, &d)
    }
}

/// Both ears of a binaural convolver consumed exactly the mono block `x`:
/// each ear's filter bank untouched, window fed with `x`, history slid.
pub open spec fn spec_fed_with<T>(
    post: BinauralConvolver<T>,
    pre: BinauralConvolver<T>,
    x: Seq<T>,
) -> bool {
    &&& crate::block_convolver::spec_consumed(post.left, pre.left, x)
    &&& crate::block_convolver::spec_consumed(post.right, pre.right, x)
}

/// Two block convolvers — one per ear — driven by one source channel.
#[verifier::reject_recursive_types(T)]
pub struct BinauralConvolver<T> {
    pub left: BlockConvolver<T>,
    pub right: BlockConvolver<T>,
}

impl<T: Copy + num_traits::Float + realfft::FftNum> BinauralConvolver<T> {
    pub open spec fn wf(&self) -> bool {
        &&& self.left.wf()
        &&& self.right.wf()
        &&& self.right.block_size == self.left.block_size
    }

    pub open spec fn spec_block_size(&self) -> int {
        self.left.block_size as int
    }

    pub fn new(block_size: usize, left_ir: &Vec<T>, right_ir: &Vec<T>) -> (r: Self)
        requires
            1 <= block_size,
            block_size * 2 <= usize::MAX,
            1 <= left_ir@.len(),
            left_ir@.len() + block_size <= usize::MAX,
            1 <= right_ir@.len(),
            right_ir@.len() + block_size <= usize::MAX,
        ensures
            r.wf(),
            r.spec_block_size() == block_size,
    {
        BinauralConvolver {
            left: BlockConvolver::new(block_size, left_ir),
            right: BlockConvolver::new(block_size, right_ir),
        }
    }

    /// Feeds one mono block to both ears, convolving each independently.
    pub fn process(&mut self, input: &Vec<T>) -> (out: (Vec<T>, Vec<T>))
        requires
            old(self).wf(),
            input@.len() == old(self).spec_block_size(),
        ensures
            final(self).wf(),
            final(self).spec_block_size() == old(self).spec_block_size(),
            spec_fed_with(*final(self), *old(self), input@),
            out.0@.len() == old(self).spec_block_size(),
            out.1@.len() == old(self).spec_block_size(),
    {
        let mut left_out = copy_samples(input);
        let mut right_out = copy_samples(input);
        self.left.process(&mut left_out);
        self.right.process(&mut right_out);
        (left_out, right_out)
    }
}

/// Two block convolvers applying one fixed correction impulse response to a
/// stereo signal.
#[verifier::reject_recursive_types(T)]
pub struct Equalizer<T> {
    pub left: BlockConvolver<T>,
    pub right: BlockConvolver<T>,
    pub scratch: Vec<T>,
}

impl<T: Copy + num_traits::Float + realfft::FftNum> Equalizer<T> {
    pub open spec fn wf(&self) -> bool {
        &&& self.left.wf()
        &&& self.right.wf()
        &&& self.right.block_size == self.left.block_size
        &&& self.scratch@.len() == self.left.block_size
    }

    pub open spec fn spec_block_size(&self) -> int {
        self.left.block_size as int
    }

    pub fn new(block_size: usize, eqir: Vec<T>) -> (r: Self)
        requires
            1 <= block_size,
            block_size * 2 <= usize::MAX,
            1 <= eqir@.len(),
            eqir@.len() + block_size <= usize::MAX,
        ensures
            r.wf(),
            r.spec_block_size() == block_size,
    {
        let mut scratch: Vec<T> = Vec::new();
        let mut i: usize = 0;
        while i < block_size
            invariant
                i <= block_size,
                scratch@.len() == i,
            decreases block_size - i,
        {
            scratch.push(sample_zero());
            i += 1;
        }
        Equalizer {
            left: BlockConvolver::new(block_size, &eqir),
            right: BlockConvolver::new(block_size, &eqir),
            scratch,
        }
    }

    /// Round-trips each stereo channel through scratch storage and its ear's
    /// convolver, writing back in place: each ear consumed exactly its
    /// channel of the incoming block.
    pub fn process(&mut self, stereo_data: &mut AudioData<T>)
        requires
            old(self).wf(),
            old(stereo_data).wf(),
            old(stereo_data).spec_num_channels() == 2,
            old(stereo_data).spec_num_frames() == old(self).spec_block_size(),
        ensures
            final(self).wf(),
            final(self).spec_block_size() == old(self).spec_block_size(),
            crate::block_convolver::spec_consumed(
                final(self).left,
                old(self).left,
                old(stereo_data).spec_channel(0),
            ),
            crate::block_convolver::spec_consumed(
                final(self).right,
                old(self).right,
                old(stereo_data).spec_channel(1),
            ),
            final(stereo_data).wf(),
            final(stereo_data).spec_num_channels() == 2,
            final(stereo_data).spec_num_frames() == old(stereo_data).spec_num_frames(),
    {
        stereo_data.copy_channel_to_slice(0, &mut self.scratch);
        proof {
            assert(self.scratch@ =~= old(stereo_data).spec_channel(0));
        }
        self.left.process(&mut self.scratch);
        stereo_data.copy_channel_from_slice(0, &self.scratch);

        stereo_data.copy_channel_to_slice(1, &mut self.scratch);
        proof {
            assert(self.scratch@ =~= old(stereo_data).spec_channel(1));
        }
        self.right.process(&mut self.scratch);
        stereo_data.copy_channel_from_slice(1, &self.scratch);
    }
}

/// Splits an interleaved stereo impulse response into its two ears: even
/// sample positions left, odd positions right.
pub fn deinterleave_stereo<T: Copy>(pcm: &Vec<T>) -> (r: (Vec<T>, Vec<T>))
    ensures
        r.0@.len() == (pcm@.len() + 1) / 2,
        r.1@.len() == pcm@.len() as int / 2,
        forall|k: int| 0 <= k < r.0@.len() ==> r.0@[k] == pcm@[2 * k],
        forall|k: int| 0 <= k < r.1@.len() ==> r.1@[k] == pcm@[2 * k + 1],
{
    let n = pcm.len();
    let mut left: Vec<T> = Vec::new();
    let mut right: Vec<T> = Vec::new();
    let mut i: usize = 0;
    while i < n
        invariant
            n == pcm@.len(),
            i <= n,
            i % 2 == 0 ==> left@.len() * 2 == i && right@.len() * 2 == i,
            i % 2 == 1 ==> left@.len() * 2 == i + 1 && right@.len() * 2 == i - 1,
            forall|k: int| 0 <= k < left@.len() ==> left@[k] == pcm@[2 * k],
            forall|k: int| 0 <= k < right@.len() ==> right@[k] == pcm@[2 * k + 1],
        decreases n - i,
    {
        if i % 2 == 0 {
            left.push(pcm[i]);
        } else {
            right.push(pcm[i]);
        }
        i += 1;
    }
    (left, right)
}

/// A head angle in radians, expressed as normalized millidegrees.
///
/// A value that cannot be read as a finite number (an unavailable sensor
/// reports NaN through the conversion) lands on zero, the forward-facing
/// default.
pub fn angle_to_millidegrees<T: Copy + num_traits::Float>(angle_radians: &T) -> (r: u32)
    ensures
        r < TURN_MDEG,
{
    let degrees = sample_to_degrees(angle_radians);
    let thousand: T = sample_from_usize(1000);
    let scaled = sample_mul(&degrees, &thousand);
    let raw: i64 = sample_to_i64(&scaled);
    let wrapped: i64 = raw % 360000;
    let fixed: i64 = if wrapped < 0 {
        wrapped + 360000
    } else {
        wrapped
    };
    fixed as u32
}

/// A block of silence.
fn zero_block<T: Copy + num_traits::Float>(len: usize) -> (r: Vec<T>)
    ensures
        r@.len() == len,
{
    let mut r: Vec<T> = Vec::new();
    let mut i: usize = 0;
    while i < len
        invariant
            i <= len,
            r@.len() == i,
        decreases len - i,
    {
        r.push(sample_zero());
        i += 1;
    }
    r
}

/// Adds `gain * ((1 - frac) * a + frac * b)` into `out`, sample by sample.
fn accumulate_blend<T: Copy + num_traits::Float>(
    out: &mut Vec<T>,
    a: &Vec<T>,
    b: &Vec<T>,
    frac: &T,
    gain: &T,
)
    requires
        old(out)@.len() == a@.len(),
        a@.len() == b@.len(),
    ensures
        final(out)@.len() == old(out)@.len(),
{
    let one: T = sample_one();
    let inv = sample_sub(&one, frac);
    let n = out.len();
    let mut k: usize = 0;
    while k < n
        invariant
            k <= n,
            out@.len() == n,
            a@.len() == n,
            b@.len() == n,
        decreases n - k,
    {
        let blend = sample_add(&sample_mul(&inv, &a[k]), &sample_mul(frac, &b[k]));
        let v = sample_add(&out[k], &sample_mul(gain, &blend));
        out.set(k, v);
        k += 1;
    }
}

/// Adds `gain * a` into `out`, sample by sample.
fn accumulate_scaled<T: Copy + num_traits::Float>(out: &mut Vec<T>, a: &Vec<T>, gain: &T)
    requires
        old(out)@.len() == a@.len(),
    ensures
        final(out)@.len() == old(out)@.len(),
{
    let n = out.len();
    let mut k: usize = 0;
    while k < n
        invariant
            k <= n,
            out@.len() == n,
            a@.len() == n,
        decreases n - k,
    {
        let v = sample_add(&out[k], &sample_mul(gain, &a[k]));
        out.set(k, v);
        k += 1;
    }
}

/// Runs the convolver at `idx` in place, leaving every other bank entry as
/// it was.
fn bank_process_at<T: Copy + num_traits::Float + realfft::FftNum>(
    bank: &mut Vec<BinauralConvolver<T>>,
    idx: usize,
    x: &Vec<T>,
) -> (out: (Vec<T>, Vec<T>))
    requires
        idx < old(bank)@.len(),
        forall|p: int|
            0 <= p < old(bank)@.len() ==> (#[trigger] old(bank)@[p]).wf() && old(
                bank,
            )@[p].spec_block_size() == x@.len(),
    ensures
        final(bank)@.len() == old(bank)@.len(),
        forall|p: int|
            0 <= p < final(bank)@.len() ==> (#[trigger] final(bank)@[p]).wf()
                && final(bank)@[p].spec_block_size() == x@.len(),
        spec_fed_with(final(bank)@[idx as int], old(bank)@[idx as int], x@),
        forall|p: int|
            0 <= p < old(bank)@.len() && p != idx ==> final(bank)@[p] == old(bank)@[p],
        out.0@.len() == x@.len(),
        out.1@.len() == x@.len(),
{
    let mut conv = bank.remove(idx);
    let out = conv.process(x);
    bank.insert(idx, conv);
    proof {
        assert forall|p: int|
            0 <= p < bank@.len() implies (#[trigger] bank@[p]).wf() && bank@[p].spec_block_size()
            == x@.len() && (p != idx ==> bank@[p] == old(bank)@[p]) by {
            if p != idx {
                assert(bank@[p] == old(bank)@.remove(idx as int).insert(idx as int, conv)[p]);
            }
        }
    }
    out
}

/// The impulse-response byte blobs for each measured direction, plus the
/// render block size.
pub struct SurroundVirtualizerConfig<'a> {
    pub fc_wav: &'a [u8],
    pub bl_wav: &'a [u8],
    pub br_wav: &'a [u8],
    pub fl_wav: &'a [u8],
    pub fr_wav: &'a [u8],
    pub sl_wav: &'a [u8],
    pub sr_wav: &'a [u8],
    pub lfe_wav: &'a [u8],
    pub block_size: usize,
}

/// Decodes one direction's stereo impulse response into a per-ear pair that
/// a convolver of the given block size accepts. An empty or unreadable blob
/// degrades to a one-sample silent filter, and an absurdly long one is cut
/// to what the partition arithmetic can address.
fn wav_to_ir_pair<T: Copy + num_traits::Float + hound::Sample + Default>(
    wav: &[u8],
    block_size: usize,
) -> (r: (Vec<T>, Vec<T>))
    requires
        1 <= block_size,
        block_size * 2 <= usize::MAX,
    ensures
        1 <= r.0@.len(),
        r.0@.len() + block_size <= usize::MAX,
        1 <= r.1@.len(),
        r.1@.len() + block_size <= usize::MAX,
{
    let pcm: Vec<T> = wav_to_pcm(wav);
    let (left, right) = deinterleave_stereo(&pcm);
    let cap: usize = usize::MAX - block_size;
    (clamp_ir(left, cap), clamp_ir(right, cap))
}

/// At least one sample, at most `cap` samples: pads an empty filter with one
/// silent sample and drops the tail past `cap`.
fn clamp_ir<T: Copy + num_traits::Float>(v: Vec<T>, cap: usize) -> (r: Vec<T>)
    requires
        1 <= cap,
    ensures
        1 <= r@.len() <= cap,
{
    let n = v.len();
    let mut out: Vec<T> = Vec::new();
    let mut i: usize = 0;
    while i < n && i < cap
        invariant
            n == v@.len(),
            i <= n,
            i <= cap,
            out@.len() == i,
        decreases n - i,
    {
        out.push(v[i]);
        i += 1;
    }
    if out.len() == 0 {
        out.push(sample_zero());
    }
    out
}

/// The direction a source slot is steered towards: its nominal azimuth
/// minus the head yaw, normalized to one turn.
pub open spec fn spec_steered_angle(source_azimuth_mdeg: u32, yaw_mdeg: u32) -> int {
    (source_azimuth_mdeg + 360000 - yaw_mdeg) % 360000
}

/// One steered slot rendered through the direction pair `(i0, i1)`: those
/// two of the slot's convolvers consumed the source block, every other
/// convolver of the slot is untouched.
pub open spec fn spec_slot_rendered_by<T>(
    pre: SurroundVirtualizer<T>,
    post: SurroundVirtualizer<T>,
    slot: int,
    source_azimuth_mdeg: u32,
    yaw_mdeg: u32,
    x: Seq<T>,
    i0: int,
    i1: int,
) -> bool {
    &&& spec_nearest_pair(
        pre.positions_azimuth_mdeg@,
        spec_steered_angle(source_azimuth_mdeg, yaw_mdeg),
        i0,
        i1,
    )
    &&& 0 <= slot < pre.banks@.len()
    &&& post.banks@.len() == pre.banks@.len()
    &&& i0 < pre.banks@[slot]@.len()
    &&& i1 < pre.banks@[slot]@.len()
    &&& post.banks@[slot]@.len() == pre.banks@[slot]@.len()
    &&& spec_fed_with(post.banks@[slot]@[i0], pre.banks@[slot]@[i0], x)
    &&& spec_fed_with(post.banks@[slot]@[i1], pre.banks@[slot]@[i1], x)
    &&& forall|p: int|
        0 <= p < pre.banks@[slot]@.len() && p != i0 && p != i1 ==> (
        #[trigger] post.banks@[slot]@[p]) == pre.banks@[slot]@[p]
}

/// One steered slot was rendered through the two directions nearest to its
/// steered angle, exactly as the nearest-first scan picks them.
pub open spec fn spec_slot_rendered<T>(
    pre: SurroundVirtualizer<T>,
    post: SurroundVirtualizer<T>,
    slot: int,
    source_azimuth_mdeg: u32,
    yaw_mdeg: u32,
    x: Seq<T>,
) -> bool {
    exists|i0: int, i1: int|
        #[trigger] spec_slot_rendered_by(pre, post, slot, source_azimuth_mdeg, yaw_mdeg, x, i0, i1)
}

/// A rendered slot stays rendered across steps that leave that slot's bank
/// and the direction table alone, whatever else changed around it.
proof fn lemma_slot_rendered_frame<T>(
    pre1: SurroundVirtualizer<T>,
    pre2: SurroundVirtualizer<T>,
    post1: SurroundVirtualizer<T>,
    post2: SurroundVirtualizer<T>,
    slot: int,
    source_azimuth_mdeg: u32,
    yaw_mdeg: u32,
    x: Seq<T>,
)
    requires
        spec_slot_rendered(pre1, post1, slot, source_azimuth_mdeg, yaw_mdeg, x),
        pre2.positions_azimuth_mdeg@ == pre1.positions_azimuth_mdeg@,
        pre2.banks@.len() == pre1.banks@.len(),
        pre2.banks@[slot] == pre1.banks@[slot],
        post2.banks@.len() == post1.banks@.len(),
        post2.banks@[slot] == post1.banks@[slot],
    ensures
        spec_slot_rendered(pre2, post2, slot, source_azimuth_mdeg, yaw_mdeg, x),
{
    let (i0, i1) = choose|i0: int, i1: int|
        spec_slot_rendered_by(pre1, post1, slot, source_azimuth_mdeg, yaw_mdeg, x, i0, i1);
    assert(spec_slot_rendered_by(pre2, post2, slot, source_azimuth_mdeg, yaw_mdeg, x, i0, i1));
}

/// The bank of steerable convolvers, the dedicated low-frequency convolver,
/// and the pitch filter, all sharing one block size.
#[verifier::reject_recursive_types(T)]
pub struct SurroundVirtualizer<T> {
    pub block_size: usize,
    /// Azimuths of the measured directions, in normalized millidegrees.
    pub positions_azimuth_mdeg: Vec<u32>,
    /// One inner bank per steerable source slot; each inner bank holds one
    /// stateful convolver per measured direction.
    pub banks: Vec<Vec<BinauralConvolver<T>>>,
    pub lfe_conv: BinauralConvolver<T>,
    pub pitch_filter: PitchFilter<T>,
}

impl<T: Copy + num_traits::Float + num_traits::FloatConst + realfft::FftNum> SurroundVirtualizer<T> {
    /// How many steerable source slots exist: seven surround channels plus
    /// one spare mirroring the low-frequency channel position.
    pub open spec fn spec_num_slots(&self) -> int {
        8
    }

    /// How many measured directions the banks cover.
    pub open spec fn spec_num_positions(&self) -> int {
        7
    }

    pub open spec fn wf(&self) -> bool {
        &&& 1 <= self.block_size
        &&& self.block_size * 2 <= usize::MAX
        &&& self.positions_azimuth_mdeg@.len() == self.spec_num_positions()
        &&& forall|p: int|
            0 <= p < self.positions_azimuth_mdeg@.len() ==> (
            #[trigger] self.positions_azimuth_mdeg@[p]) < TURN_MDEG
        &&& self.banks@.len() == self.spec_num_slots()
        &&& forall|s: int|
            0 <= s < self.banks@.len() ==> (#[trigger] self.banks@[s])@.len()
                == self.spec_num_positions()
        &&& forall|s: int, p: int|
            0 <= s < self.banks@.len() && 0 <= p < self.banks@[s]@.len() ==> (
            #[trigger] self.banks@[s]@[p]).wf() && self.banks@[s]@[p].spec_block_size()
                == self.block_size
        &&& self.lfe_conv.wf()
        &&& self.lfe_conv.spec_block_size() == self.block_size
    }

    /// Decodes all eight direction blobs and builds the full bank grid: each
    /// steerable slot gets one convolver per measured direction, so that any
    /// slot can be rendered through any pair of neighbouring directions with
    /// its own convolution state.
    pub fn new(config: &SurroundVirtualizerConfig) -> (r: Self) where T: hound::Sample + Default
        requires
            1 <= config.block_size,
            config.block_size * 2 <= usize::MAX,
        ensures
            r.wf(),
            r.block_size == config.block_size,
            r.positions_azimuth_mdeg@ == seq![
                330000u32,
                30000u32,
                0u32,
                270000u32,
                90000u32,
                210000u32,
                150000u32,
            ],
    {
        let bs = config.block_size;

        let mut irs: Vec<(Vec<T>, Vec<T>)> = Vec::new();
        irs.push(wav_to_ir_pair(config.fl_wav, bs));
        irs.push(wav_to_ir_pair(config.fr_wav, bs));
        irs.push(wav_to_ir_pair(config.fc_wav, bs));
        irs.push(wav_to_ir_pair(config.sl_wav, bs));
        irs.push(wav_to_ir_pair(config.sr_wav, bs));
        irs.push(wav_to_ir_pair(config.bl_wav, bs));
        irs.push(wav_to_ir_pair(config.br_wav, bs));

        let mut positions_azimuth_mdeg: Vec<u32> = Vec::new();
        positions_azimuth_mdeg.push(330000);  // front left
        positions_azimuth_mdeg.push(30000);  // front right
        positions_azimuth_mdeg.push(0);  // center
        positions_azimuth_mdeg.push(270000);  // side left
        positions_azimuth_mdeg.push(90000);  // side right
        positions_azimuth_mdeg.push(210000);  // back left
        positions_azimuth_mdeg.push(150000);  // back right
        proof {
            assert(positions_azimuth_mdeg@ =~= seq![
                330000u32,
                30000u32,
                0u32,
                270000u32,
                90000u32,
                210000u32,
                150000u32,
            ]);
        }

        let mut banks: Vec<Vec<BinauralConvolver<T>>> = Vec::new();
        let mut s: usize = 0;
        while s < 8
            invariant
                1 <= bs,
                bs * 2 <= usize::MAX,
                irs@.len() == 7,
                forall|k: int|
                    0 <= k < 7 ==> 1 <= (#[trigger] irs@[k]).0@.len() && irs@[k].0@.len() + bs
                        <= usize::MAX && 1 <= irs@[k].1@.len() && irs@[k].1@.len() + bs
                        <= usize::MAX,
                s <= 8,
                banks@.len() == s,
                forall|t: int| 0 <= t < s ==> (#[trigger] banks@[t])@.len() == 7,
                forall|t: int, p: int|
                    0 <= t < s && 0 <= p < 7 ==> (#[trigger] banks@[t]@[p]).wf() && banks@[t]@[
                    p].spec_block_size() == bs,
            decreases 8 - s,
        {
            let mut bank: Vec<BinauralConvolver<T>> = Vec::new();
            let mut p: usize = 0;
            while p < 7
                invariant
                    1 <= bs,
                    bs * 2 <= usize::MAX,
                    irs@.len() == 7,
                    forall|k: int|
                        0 <= k < 7 ==> 1 <= (#[trigger] irs@[k]).0@.len() && irs@[k].0@.len() + bs
                            <= usize::MAX && 1 <= irs@[k].1@.len() && irs@[k].1@.len() + bs
                            <= usize::MAX,
                    p <= 7,
                    bank@.len() == p,
                    forall|q: int|
                        0 <= q < p ==> (#[trigger] bank@[q]).wf() && bank@[q].spec_block_size()
                            == bs,
                decreases 7 - p,
            {
                let pair = &irs[p];
                bank.push(BinauralConvolver::new(bs, &pair.0, &pair.1));
                p += 1;
            }
            banks.push(bank);
            s += 1;
        }

        let lfe_pair = wav_to_ir_pair(config.lfe_wav, bs);
        let lfe_conv = BinauralConvolver::new(bs, &lfe_pair.0, &lfe_pair.1);

        SurroundVirtualizer {
            block_size: bs,
            positions_azimuth_mdeg,
            banks,
            lfe_conv,
            pitch_filter: PitchFilter::new(),
        }
    }

    /// Steers one source slot by its nominal direction minus the head yaw,
    /// renders it through the two nearest measured directions, and blends
    /// the two rendered outputs into the accumulators.
    fn render_steered_source(
        &mut self,
        slot: usize,
        source_azimuth_mdeg: u32,
        yaw_mdeg: u32,
        gain: &T,
        x: &Vec<T>,
        out_left: &mut Vec<T>,
        out_right: &mut Vec<T>,
    )
        requires
            old(self).wf(),
            slot < old(self).spec_num_slots(),
            source_azimuth_mdeg < TURN_MDEG,
            yaw_mdeg < TURN_MDEG,
            x@.len() == old(self).block_size,
            old(out_left)@.len() == old(self).block_size,
            old(out_right)@.len() == old(self).block_size,
        ensures
            final(self).wf(),
            final(self).block_size == old(self).block_size,
            final(self).positions_azimuth_mdeg == old(self).positions_azimuth_mdeg,
            final(self).lfe_conv == old(self).lfe_conv,
            final(self).pitch_filter == old(self).pitch_filter,
            final(self).banks@.len() == old(self).banks@.len(),
            forall|s: int|
                0 <= s < old(self).banks@.len() && s != slot ==> final(self).banks@[s] == old(
                    self,
                ).banks@[s],
            spec_slot_rendered(
                *old(self),
                *final(self),
                slot as int,
                source_azimuth_mdeg,
                yaw_mdeg,
                x@,
            ),
            final(out_left)@.len() == old(out_left)@.len(),
            final(out_right)@.len() == old(out_right)@.len(),
    {
        let steered: u32 = (source_azimuth_mdeg + TURN_MDEG - yaw_mdeg) % TURN_MDEG;
        let (i0, i1, dist0, span) = find_nearest_hrirs(&self.positions_azimuth_mdeg, steered);
        let frac: T = interp_frac(dist0, span);

        let mut bank = self.banks.remove(slot);
        let (l0, r0) = bank_process_at(&mut bank, i0, x);
        let (l1, r1) = bank_process_at(&mut bank, i1, x);
        self.banks.insert(slot, bank);
        proof {
            assert forall|s: int, p: int|
                0 <= s < self.banks@.len() && 0 <= p < self.banks@[s]@.len() implies (
            #[trigger] self.banks@[s]@[p]).wf() && self.banks@[s]@[p].spec_block_size()
                == self.block_size by {
                if s != slot {
                    assert(self.banks@[s] == old(self).banks@.remove(slot as int).insert(
                        slot as int,
                        bank,
                    )[s]);
                }
            }
            assert forall|s: int|
                0 <= s < old(self).banks@.len() && s != slot implies self.banks@[s] == old(
                self,
            ).banks@[s] by {
                assert(self.banks@[s] == old(self).banks@.remove(slot as int).insert(
                    slot as int,
                    bank,
                )[s]);
            }
            assert(steered as int == spec_steered_angle(source_azimuth_mdeg, yaw_mdeg));
            assert(self.banks@[slot as int] == bank);
            assert(spec_slot_rendered_by(
                *old(self),
                *self,
                slot as int,
                source_azimuth_mdeg,
                yaw_mdeg,
                x@,
                i0 as int,
                i1 as int,
            ));
        }

        accumulate_blend(out_left, &l0, &l1, &frac, gain);
        accumulate_blend(out_right, &r0, &r1, &frac, gain);
    }

    /// Renders an eight-channel block: front left/right at full gain, the
    /// center, side and back channels at half the square root of two, each
    /// steered by its nominal direction minus the head yaw; the
    /// low-frequency channel runs unsteered at one quarter gain; the pitch
    /// filter is recomputed from the head pitch and applied last.
    pub fn process_ch8(
        &mut self,
        input_block: &AudioData<T>,
        stereo_output: &mut AudioData<T>,
        yaw_mdeg: u32,
        pitch_radians: &T,
    )
        requires
            old(self).wf(),
            input_block.wf(),
            input_block.spec_num_channels() >= 8,
            input_block.spec_num_frames() == old(self).block_size,
            old(stereo_output).wf(),
            old(stereo_output).spec_num_channels() == 2,
            old(stereo_output).spec_num_frames() == old(self).block_size,
            yaw_mdeg < TURN_MDEG,
        ensures
            final(self).wf(),
            final(self).block_size == old(self).block_size,
            final(self).positions_azimuth_mdeg == old(self).positions_azimuth_mdeg,
            final(self).banks@.len() == old(self).banks@.len(),
            spec_slot_rendered(
                *old(self),
                *final(self),
                0,
                old(self).positions_azimuth_mdeg@[0],
                yaw_mdeg,
                input_block.spec_channel(0),
            ),
            spec_slot_rendered(
                *old(self),
                *final(self),
                1,
                old(self).positions_azimuth_mdeg@[1],
                yaw_mdeg,
                input_block.spec_channel(1),
            ),
            spec_slot_rendered(
                *old(self),
                *final(self),
                2,
                old(self).positions_azimuth_mdeg@[2],
                yaw_mdeg,
                input_block.spec_channel(2),
            ),
            spec_fed_with(final(self).lfe_conv, old(self).lfe_conv, input_block.spec_channel(3)),
            final(self).banks@[3] == old(self).banks@[3],
            spec_slot_rendered(
                *old(self),
                *final(self),
                4,
                old(self).positions_azimuth_mdeg@[3],
                yaw_mdeg,
                input_block.spec_channel(4),
            ),
            spec_slot_rendered(
                *old(self),
                *final(self),
                5,
                old(self).positions_azimuth_mdeg@[4],
                yaw_mdeg,
                input_block.spec_channel(5),
            ),
            spec_slot_rendered(
                *old(self),
                *final(self),
                6,
                old(self).positions_azimuth_mdeg@[5],
                yaw_mdeg,
                input_block.spec_channel(6),
            ),
            spec_slot_rendered(
                *old(self),
                *final(self),
                7,
                old(self).positions_azimuth_mdeg@[6],
                yaw_mdeg,
                input_block.spec_channel(7),
            ),
            final(stereo_output).wf(),
            final(stereo_output).spec_num_channels() == 2,
            final(stereo_output).spec_num_frames() == old(stereo_output).spec_num_frames(),
    {
        let bs = self.block_size;
        let mut out_left: Vec<T> = zero_block(bs);
        let mut out_right: Vec<T> = zero_block(bs);

        let one: T = sample_one();
        let two: T = sample_from_usize(2);
        // Center, side and back share the same half-root-two weighting.
        let kappa: T = sample_div(&sample_sqrt(&two), &two);
        let four: T = sample_from_usize(4);
        let lfe_gain: T = sample_div(&one, &four);

        let az_fl = self.positions_azimuth_mdeg[0];
        let x = input_block.select_channel(0);
        self.render_steered_source(0, az_fl, yaw_mdeg, &one, &x, &mut out_left, &mut out_right);
        let ghost s1 = *self;
        let az_fr = self.positions_azimuth_mdeg[1];
        let x = input_block.select_channel(1);
        self.render_steered_source(1, az_fr, yaw_mdeg, &one, &x, &mut out_left, &mut out_right);
        let ghost s2 = *self;
        let az_fc = self.positions_azimuth_mdeg[2];
        let x = input_block.select_channel(2);
        self.render_steered_source(2, az_fc, yaw_mdeg, &kappa, &x, &mut out_left, &mut out_right);
        let ghost s3 = *self;

        let x_lfe = input_block.select_channel(3);
        let (lfe_l, lfe_r) = self.lfe_conv.process(&x_lfe);
        accumulate_scaled(&mut out_left, &lfe_l, &lfe_gain);
        accumulate_scaled(&mut out_right, &lfe_r, &lfe_gain);
        let ghost s4 = *self;

        let az_sl = self.positions_azimuth_mdeg[3];
        let x = input_block.select_channel(4);
        self.render_steered_source(4, az_sl, yaw_mdeg, &kappa, &x, &mut out_left, &mut out_right);
        let ghost s5 = *self;
        let az_sr = self.positions_azimuth_mdeg[4];
        let x = input_block.select_channel(5);
        self.render_steered_source(5, az_sr, yaw_mdeg, &kappa, &x, &mut out_left, &mut out_right);
        let ghost s6 = *self;
        let az_bl = self.positions_azimuth_mdeg[5];
        let x = input_block.select_channel(6);
        self.render_steered_source(6, az_bl, yaw_mdeg, &kappa, &x, &mut out_left, &mut out_right);
        let ghost s7 = *self;
        let az_br = self.positions_azimuth_mdeg[6];
        let x = input_block.select_channel(7);
        self.render_steered_source(7, az_br, yaw_mdeg, &kappa, &x, &mut out_left, &mut out_right);
        let ghost s8 = *self;

        self.finish_block(stereo_output, &mut out_left, &mut out_right, pitch_radians);
        proof {
            let pre = *old(self);
            let post = *self;
            lemma_slot_rendered_frame(
                pre,
                pre,
                s1,
                post,
                0,
                pre.positions_azimuth_mdeg@[0],
                yaw_mdeg,
                input_block.spec_channel(0),
            );
            lemma_slot_rendered_frame(
                s1,
                pre,
                s2,
                post,
                1,
                pre.positions_azimuth_mdeg@[1],
                yaw_mdeg,
                input_block.spec_channel(1),
            );
            lemma_slot_rendered_frame(
                s2,
                pre,
                s3,
                post,
                2,
                pre.positions_azimuth_mdeg@[2],
                yaw_mdeg,
                input_block.spec_channel(2),
            );
            lemma_slot_rendered_frame(
                s4,
                pre,
                s5,
                post,
                4,
                pre.positions_azimuth_mdeg@[3],
                yaw_mdeg,
                input_block.spec_channel(4),
            );
            lemma_slot_rendered_frame(
                s5,
                pre,
                s6,
                post,
                5,
                pre.positions_azimuth_mdeg@[4],
                yaw_mdeg,
                input_block.spec_channel(5),
            );
            lemma_slot_rendered_frame(
                s6,
                pre,
                s7,
                post,
                6,
                pre.positions_azimuth_mdeg@[5],
                yaw_mdeg,
                input_block.spec_channel(6),
            );
            lemma_slot_rendered_frame(
                s7,
                pre,
                s8,
                post,
                7,
                pre.positions_azimuth_mdeg@[6],
                yaw_mdeg,
                input_block.spec_channel(7),
            );
        }
    }

    /// Renders a stereo block through four virtual sources: each input
    /// channel appears thirty degrees off front at gain 0.8 and a hundred
    /// and ten degrees to its side at gain 0.4, all steered and blended like
    /// the surround channels.
    pub fn process_ch2(
        &mut self,
        input_block: &AudioData<T>,
        stereo_output: &mut AudioData<T>,
        yaw_mdeg: u32,
        pitch_radians: &T,
    )
        requires
            old(self).wf(),
            input_block.wf(),
            input_block.spec_num_channels() >= 2,
            input_block.spec_num_frames() == old(self).block_size,
            old(stereo_output).wf(),
            old(stereo_output).spec_num_channels() == 2,
            old(stereo_output).spec_num_frames() == old(self).block_size,
            yaw_mdeg < TURN_MDEG,
        ensures
            final(self).wf(),
            final(self).block_size == old(self).block_size,
            final(self).positions_azimuth_mdeg == old(self).positions_azimuth_mdeg,
            final(self).banks@.len() == old(self).banks@.len(),
            spec_slot_rendered(
                *old(self),
                *final(self),
                0,
                330000,
                yaw_mdeg,
                input_block.spec_channel(0),
            ),
            spec_slot_rendered(
                *old(self),
                *final(self),
                1,
                30000,
                yaw_mdeg,
                input_block.spec_channel(1),
            ),
            spec_slot_rendered(
                *old(self),
                *final(self),
                2,
                250000,
                yaw_mdeg,
                input_block.spec_channel(0),
            ),
            spec_slot_rendered(
                *old(self),
                *final(self),
                3,
                110000,
                yaw_mdeg,
                input_block.spec_channel(1),
            ),
            forall|s: int| 4 <= s < 8 ==> final(self).banks@[s] == old(self).banks@[s],
            final(self).lfe_conv == old(self).lfe_conv,
            final(stereo_output).wf(),
            final(stereo_output).spec_num_channels() == 2,
            final(stereo_output).spec_num_frames() == old(stereo_output).spec_num_frames(),
    {
        let bs = self.block_size;
        let mut out_left: Vec<T> = zero_block(bs);
        let mut out_right: Vec<T> = zero_block(bs);

        let five: T = sample_from_usize(5);
        let front_gain: T = sample_div(&sample_from_usize(4), &five);
        let side_gain: T = sample_div(&sample_from_usize(2), &five);

        let x_left = input_block.select_channel(0);
        let x_right = input_block.select_channel(1);
        self.render_steered_source(
            0,
            330000,
            yaw_mdeg,
            &front_gain,
            &x_left,
            &mut out_left,
            &mut out_right,
        );
        let ghost s1 = *self;
        self.render_steered_source(
            1,
            30000,
            yaw_mdeg,
            &front_gain,
            &x_right,
            &mut out_left,
            &mut out_right,
        );
        let ghost s2 = *self;
        self.render_steered_source(
            2,
            250000,
            yaw_mdeg,
            &side_gain,
            &x_left,
            &mut out_left,
            &mut out_right,
        );
        let ghost s3 = *self;
        self.render_steered_source(
            3,
            110000,
            yaw_mdeg,
            &side_gain,
            &x_right,
            &mut out_left,
            &mut out_right,
        );
        let ghost s4 = *self;

        self.finish_block(stereo_output, &mut out_left, &mut out_right, pitch_radians);
        proof {
            let pre = *old(self);
            let post = *self;
            lemma_slot_rendered_frame(
                pre,
                pre,
                s1,
                post,
                0,
                330000,
                yaw_mdeg,
                input_block.spec_channel(0),
            );
            lemma_slot_rendered_frame(
                s1,
                pre,
                s2,
                post,
                1,
                30000,
                yaw_mdeg,
                input_block.spec_channel(1),
            );
            lemma_slot_rendered_frame(
                s2,
                pre,
                s3,
                post,
                2,
                250000,
                yaw_mdeg,
                input_block.spec_channel(0),
            );
            lemma_slot_rendered_frame(
                s3,
                pre,
                s4,
                post,
                3,
                110000,
                yaw_mdeg,
                input_block.spec_channel(1),
            );
        }
    }

    /// Renders a mono block by duplicating the single channel to two virtual
    /// sources thirty degrees off front, both at full gain.
    pub fn process_mono(
        &mut self,
        input_block: &AudioData<T>,
        stereo_output: &mut AudioData<T>,
        yaw_mdeg: u32,
        pitch_radians: &T,
    )
        requires
            old(self).wf(),
            input_block.wf(),
            input_block.spec_num_channels() >= 1,
            input_block.spec_num_frames() == old(self).block_size,
            old(stereo_output).wf(),
            old(stereo_output).spec_num_channels() == 2,
            old(stereo_output).spec_num_frames() == old(self).block_size,
            yaw_mdeg < TURN_MDEG,
        ensures
            final(self).wf(),
            final(self).block_size == old(self).block_size,
            final(self).positions_azimuth_mdeg == old(self).positions_azimuth_mdeg,
            final(self).banks@.len() == old(self).banks@.len(),
            spec_slot_rendered(
                *old(self),
                *final(self),
                0,
                330000,
                yaw_mdeg,
                input_block.spec_channel(0),
            ),
            spec_slot_rendered(
                *old(self),
                *final(self),
                1,
                30000,
                yaw_mdeg,
                input_block.spec_channel(0),
            ),
            forall|s: int| 2 <= s < 8 ==> final(self).banks@[s] == old(self).banks@[s],
            final(self).lfe_conv == old(self).lfe_conv,
            final(stereo_output).wf(),
            final(stereo_output).spec_num_channels() == 2,
            final(stereo_output).spec_num_frames() == old(stereo_output).spec_num_frames(),
    {
        let bs = self.block_size;
        let mut out_left: Vec<T> = zero_block(bs);
        let mut out_right: Vec<T> = zero_block(bs);

        let one: T = sample_one();
        let x = input_block.select_channel(0);
        self.render_steered_source(0, 330000, yaw_mdeg, &one, &x, &mut out_left, &mut out_right);
        let ghost s1 = *self;
        self.render_steered_source(1, 30000, yaw_mdeg, &one, &x, &mut out_left, &mut out_right);
        let ghost s2 = *self;

        self.finish_block(stereo_output, &mut out_left, &mut out_right, pitch_radians);
        proof {
            let pre = *old(self);
            let post = *self;
            lemma_slot_rendered_frame(
                pre,
                pre,
                s1,
                post,
                0,
                330000,
                yaw_mdeg,
                input_block.spec_channel(0),
            );
            lemma_slot_rendered_frame(
                s1,
                pre,
                s2,
                post,
                1,
                30000,
                yaw_mdeg,
                input_block.spec_channel(0),
            );
        }
    }

    /// Shared tail of every render path: recompute the pitch filter from the
    /// current head pitch, run it over the mixed stereo pair, and interleave
    /// the pair into the output block.
    fn finish_block(
        &mut self,
        stereo_output: &mut AudioData<T>,
        out_left: &mut Vec<T>,
        out_right: &mut Vec<T>,
        pitch_radians: &T,
    )
        requires
            old(self).wf(),
            old(out_left)@.len() == old(self).block_size,
            old(out_right)@.len() == old(self).block_size,
            old(stereo_output).wf(),
            old(stereo_output).spec_num_channels() == 2,
            old(stereo_output).spec_num_frames() == old(self).block_size,
        ensures
            final(self).wf(),
            final(self).block_size == old(self).block_size,
            final(self).positions_azimuth_mdeg == old(self).positions_azimuth_mdeg,
            final(self).banks == old(self).banks,
            final(self).lfe_conv == old(self).lfe_conv,
            final(stereo_output).wf(),
            final(stereo_output).spec_num_channels() == 2,
            final(stereo_output).spec_num_frames() == old(stereo_output).spec_num_frames(),
    {
        self.pitch_filter.recompute(pitch_radians);
        self.pitch_filter.apply_stereo(out_left, out_right);
        stereo_output.copy_channel_from_slice(0, out_left);
        stereo_output.copy_channel_from_slice(1, out_right);
    }
}

} // verus!
