//! Streaming partitioned convolution of one channel against one fixed
//! impulse response.
//!
//! The impulse response is split into `block_size`-sized chunks, each
//! zero-padded to a window of `2 * block_size` samples (so a block-sized input
//! convolved under that window is free of circular wrap in the upper half),
//! transformed, and scaled by `1 / window`. Each processed block is appended
//! to a persistent double-length buffer whose first half keeps the previous
//! block; the transform of that window is pushed into a sliding history ring
//! of one entry per filter partition, newest at the back. The output block is
//! the upper half of the inverse transform of
//! `sum over k of partition[k] * history[newest - k]`, and the pipeline's
//! steady-state latency is exactly one block.

use crate::sample_ops::complex_div_usize;
use crate::sample_ops::complex_mul_add;
use crate::sample_ops::complex_zero;
use crate::sample_ops::fft_forward;
use crate::sample_ops::fft_inverse;
use crate::sample_ops::sample_zero;
use std::collections::VecDeque;
use vstd::prelude::*;

verus! {

/// What one `process` call does to a convolver that consumed exactly the
/// block `x`: the filter bank is untouched, the double window holds `x` in
/// both halves (so `x` is the "previous" block of the next call), and the
/// history ring slid by one entry. The sample values of the output and of
/// the newest spectrum come from the transform backend and are not pinned.
pub open spec fn spec_consumed<T>(
    post: BlockConvolver<T>,
    pre: BlockConvolver<T>,
    x: Seq<T>,
) -> bool {
    &&& post.block_size == pre.block_size
    &&& x.len() == pre.block_size
    &&& post.filter_partitions == pre.filter_partitions
    &&& post.history@.len() == pre.history@.len()
    &&& forall|k: int|
        0 <= k < pre.history@.len() - 1 ==> post.history@[k] == pre.history@[k + 1]
    &&& forall|f: int|
        0 <= f < x.len() ==> post.double_block@[f] == x[f] && post.double_block@[x.len() + f]
            == x[f]
}

/// Frequency-domain state for one channel/one impulse response.
#[verifier::reject_recursive_types(T)]
pub struct BlockConvolver<T> {
    /// Immutable bank of transformed, scaled impulse-response partitions.
    pub filter_partitions: Vec<Vec<num_complex::Complex<T>>>,
    /// Sliding ring of window spectra, one per partition, newest at the back.
    pub history: VecDeque<Vec<num_complex::Complex<T>>>,
    /// Double-length window: previous block in the first half, current block
    /// in the second.
    pub double_block: Vec<T>,
    pub block_size: usize,
}

impl<T: Copy + num_traits::Float + realfft::FftNum> BlockConvolver<T> {
    /// One spectrum of the `2 * block_size` window holds `block_size + 1`
    /// bins.
    pub open spec fn spectrum_len(&self) -> int {
        self.block_size as int + 1
    }

    pub open spec fn wf(&self) -> bool {
        &&& 1 <= self.block_size
        &&& self.block_size * 2 <= usize::MAX
        &&& self.filter_partitions@.len() >= 1
        &&& self.history@.len() == self.filter_partitions@.len()
        &&& self.double_block@.len() == self.block_size * 2
        &&& forall|k: int|
            0 <= k < self.filter_partitions@.len() ==> (#[trigger] self.filter_partitions@[k])@.len()
                == self.spectrum_len()
        &&& forall|k: int|
            0 <= k < self.history@.len() ==> (#[trigger] self.history@[k])@.len()
                == self.spectrum_len()
    }

    pub open spec fn spec_num_partitions(&self) -> int {
        self.filter_partitions@.len() as int
    }

    pub fn num_partitions(&self) -> (n: usize)
        ensures
            n == self.spec_num_partitions(),
    {
        self.filter_partitions.len()
    }

    /// Builds the partition bank from an impulse response: ceiling of
    /// `hrir len / block_size` partitions, each transformed from one
    /// zero-padded chunk, and a history ring of the same length filled with
    /// zero spectra.
    pub fn new(block_size: usize, hrir: &Vec<T>) -> (r: Self)
        requires
            1 <= block_size,
            block_size * 2 <= usize::MAX,
            1 <= hrir@.len(),
            hrir@.len() + block_size <= usize::MAX,
        ensures
            r.wf(),
            r.block_size == block_size,
            r.spec_num_partitions() * block_size >= hrir@.len(),
            r.spec_num_partitions() * block_size < hrir@.len() + block_size,
    {
        let window_size: usize = block_size * 2;

        let mut filter_partitions: Vec<Vec<num_complex::Complex<T>>> = Vec::new();
        let mut offset: usize = 0;
        proof {
            assert(filter_partitions@.len() * block_size as int == 0) by (nonlinear_arith)
                requires
                    filter_partitions@.len() == 0,
            ;
        }
        while offset < hrir.len()
            invariant
                1 <= block_size,
                window_size == block_size * 2,
                window_size <= usize::MAX,
                hrir@.len() + block_size <= usize::MAX,
                offset == filter_partitions@.len() * block_size,
                offset <= hrir@.len() + block_size,
                filter_partitions@.len() * block_size < hrir@.len() + block_size,
                offset >= hrir@.len() ==> filter_partitions@.len() >= 1,
                forall|k: int|
                    0 <= k < filter_partitions@.len() ==> (
                    #[trigger] filter_partitions@[k])@.len() == block_size as int + 1,
            decreases hrir@.len() + block_size - offset,
        {
            let mut chunk_padded: Vec<T> = Vec::new();
            let mut i: usize = 0;
            while i < window_size
                invariant
                    window_size == block_size * 2,
                    i <= window_size,
                    chunk_padded@.len() == i,
                    offset < hrir@.len(),
                    hrir@.len() + block_size <= usize::MAX,
                    forall|k: int|
                        0 <= k < i && offset + k < hrir@.len() && k < block_size as int ==> (
                        #[trigger] chunk_padded@[k]) == hrir@[offset + k],
                decreases window_size - i,
            {
                if i < block_size && offset + i < hrir.len() {
                    chunk_padded.push(hrir[offset + i]);
                } else {
                    chunk_padded.push(sample_zero());
                }
                i += 1;
            }
            let spectrum = fft_forward(&chunk_padded);
            let mut scaled: Vec<num_complex::Complex<T>> = Vec::new();
            let mut j: usize = 0;
            while j < spectrum.len()
                invariant
                    scaled@.len() == j,
                    j <= spectrum@.len(),
                    window_size >= 1,
                decreases spectrum@.len() - j,
            {
                scaled.push(complex_div_usize(&spectrum[j], window_size));
                j += 1;
            }
            filter_partitions.push(scaled);
            proof {
                lemma_next_chunk_offset(
                    filter_partitions@.len() as int - 1,
                    block_size as int,
                    offset as int,
                    hrir@.len() as int,
                );
            }
            offset += block_size;
        }
        let num_partitions: usize = filter_partitions.len();

        let mut history: VecDeque<Vec<num_complex::Complex<T>>> = VecDeque::new();
        let mut h: usize = 0;
        while h < num_partitions
            invariant
                1 <= block_size,
                block_size * 2 <= usize::MAX,
                h <= num_partitions,
                history@.len() == h,
                forall|k: int|
                    0 <= k < h ==> (#[trigger] history@[k])@.len() == block_size as int + 1,
            decreases num_partitions - h,
        {
            let mut zero_spectrum: Vec<num_complex::Complex<T>> = Vec::new();
            let mut j: usize = 0;
            while j < block_size + 1
                invariant
                    j <= block_size + 1,
                    block_size + 1 <= usize::MAX,
                    zero_spectrum@.len() == j,
                decreases block_size + 1 - j,
            {
                zero_spectrum.push(complex_zero());
                j += 1;
            }
            history.push_back(zero_spectrum);
            h += 1;
        }

        let mut double_block: Vec<T> = Vec::new();
        let mut i: usize = 0;
        while i < window_size
            invariant
                i <= window_size,
                double_block@.len() == i,
            decreases window_size - i,
        {
            double_block.push(sample_zero());
            i += 1;
        }

        BlockConvolver { filter_partitions, history, double_block, block_size }
    }

    /// Convolves one block in place. The filter bank is untouched; the
    /// history ring slides by one (oldest spectrum evicted, the new window's
    /// spectrum appended at the back); the double buffer shifts so the block
    /// just processed becomes the "previous" half for the next call; the
    /// block is overwritten with the alias-free upper half of the inverse
    /// transform of the partition sum.
    pub fn process(&mut self, signal_block: &mut Vec<T>)
        requires
            old(self).wf(),
            old(signal_block)@.len() == old(self).block_size,
        ensures
            final(self).wf(),
            spec_consumed(*final(self), *old(self), old(signal_block)@),
            final(signal_block)@.len() == old(self).block_size,
    {
        let block_size = self.block_size;
        let window_size: usize = block_size * 2;

        // Current block into the second half of the window.
        let mut i: usize = 0;
        while i < block_size
            invariant
                self.wf(),
                block_size == self.block_size,
                window_size == block_size * 2,
                i <= block_size,
                signal_block@ == old(signal_block)@,
                signal_block@.len() == block_size,
                self.filter_partitions == old(self).filter_partitions,
                self.history == old(self).history,
                self.block_size == old(self).block_size,
                self.double_block@.len() == window_size,
                forall|k: int|
                    0 <= k < i ==> self.double_block@[block_size + k] == signal_block@[k],
            decreases block_size - i,
        {
            let v = signal_block[i];
            self.double_block.set(block_size + i, v);
            i += 1;
        }

        // Transform the window and slide the history ring.
        let spectrum = fft_forward(&self.double_block);
        let evicted = self.history.pop_front();
        proof {
            assert(evicted is Some);
        }
        self.history.push_back(spectrum);

        // Partition sum: filter[k] times the k-th newest window spectrum.
        let num_partitions = self.filter_partitions.len();
        let mut accum: Vec<num_complex::Complex<T>> = Vec::new();
        let mut j: usize = 0;
        while j < block_size + 1
            invariant
                j <= block_size + 1,
                block_size + 1 <= usize::MAX,
                accum@.len() == j,
            decreases block_size + 1 - j,
        {
            accum.push(complex_zero());
            j += 1;
        }
        let ghost mid = *self;
        let mut k: usize = 0;
        while k < num_partitions
            invariant
                self.wf(),
                block_size == self.block_size,
                num_partitions == self.spec_num_partitions(),
                k <= num_partitions,
                accum@.len() == block_size + 1,
                *self == mid,
            decreases num_partitions - k,
        {
            let newest_first_idx = num_partitions - 1 - k;
            let mut j: usize = 0;
            while j < block_size + 1
                invariant
                    self.wf(),
                    block_size == self.block_size,
                    num_partitions == self.spec_num_partitions(),
                    k < num_partitions,
                    newest_first_idx == num_partitions - 1 - k,
                    j <= block_size + 1,
                    accum@.len() == block_size + 1,
                decreases block_size + 1 - j,
            {
                let s = complex_mul_add(
                    &accum[j],
                    &self.history[newest_first_idx][j],
                    &self.filter_partitions[k][j],
                );
                accum.set(j, s);
                j += 1;
            }
            k += 1;
        }

        // Inverse transform; keep the alias-free upper half.
        let output = fft_inverse(accum, window_size);
        let mut i: usize = 0;
        while i < block_size
            invariant
                block_size >= 1,
                window_size == block_size * 2,
                output@.len() == window_size,
                i <= block_size,
                signal_block@.len() == block_size,
            decreases block_size - i,
        {
            let v = output[block_size + i];
            signal_block.set(i, v);
            i += 1;
        }

        // Shift: the block just processed becomes the previous half.
        let ghost before_shift = *self;
        let mut i: usize = 0;
        while i < block_size
            invariant
                self.wf(),
                block_size == self.block_size,
                window_size == block_size * 2,
                i <= block_size,
                self.double_block@.len() == window_size,
                self.filter_partitions == before_shift.filter_partitions,
                self.history == before_shift.history,
                self.block_size == before_shift.block_size,
                forall|k: int|
                    0 <= k < i ==> self.double_block@[k] == before_shift.double_block@[block_size
                        + k],
                forall|k: int|
                    i <= k < window_size ==> self.double_block@[k]
                        == before_shift.double_block@[k],
            decreases block_size - i,
        {
            let v = self.double_block[block_size + i];
            self.double_block.set(i, v);
            i += 1;
        }
    }
}

/// Advancing the chunk offset by one block keeps it one block per partition.
proof fn lemma_next_chunk_offset(count: int, block_size: int, offset: int, len: int)
    by (nonlinear_arith)
    requires
        count >= 0,
        block_size >= 1,
        offset == count * block_size,
        offset < len,
    ensures
        offset + block_size == (count + 1) * block_size,
        (count + 1) * block_size < len + block_size,
{
}

} // verus!
