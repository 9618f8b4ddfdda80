//! Interleaved multichannel sample blocks and per-channel access.
//!
//! A block stores `frames * channels` samples, frame-major; channel `c` of
//! frame `f` sits at index `f * channels + c`. The strided channel operations
//! here are what every render path uses to read one source channel and to
//! write the two output channels.

use vstd::prelude::*;

verus! {

/// An interleaved block of samples together with its channel count.
pub struct AudioData<T> {
    pub samples: Vec<T>,
    pub num_channels: usize,
}

impl<T: Copy> AudioData<T> {
    /// The block is well formed when it holds whole frames.
    pub open spec fn wf(&self) -> bool {
        &&& self.num_channels >= 1
        &&& self.samples@.len() as int % self.num_channels as int == 0
    }

    pub open spec fn view_samples(&self) -> Seq<T> {
        self.samples@
    }

    pub open spec fn spec_num_channels(&self) -> int {
        self.num_channels as int
    }

    pub open spec fn spec_num_frames(&self) -> int {
        self.samples@.len() as int / self.num_channels as int
    }

    /// The sample of channel `ch` in frame `f`.
    pub open spec fn channel_sample(&self, ch: int, f: int) -> T {
        self.samples@[f * self.spec_num_channels() + ch]
    }

    /// Channel `ch` as one contiguous sequence, frame by frame.
    pub open spec fn spec_channel(&self, ch: int) -> Seq<T> {
        Seq::new(self.spec_num_frames() as nat, |f: int| self.channel_sample(ch, f))
    }

    pub fn new(samples: Vec<T>, num_channels: usize) -> (r: Self)
        requires
            num_channels >= 1,
            samples@.len() as int % num_channels as int == 0,
        ensures
            r.wf(),
            r.view_samples() == samples@,
            r.spec_num_channels() == num_channels,
    {
        AudioData { samples, num_channels }
    }

    pub fn num_channels(&self) -> (n: usize)
        ensures
            n == self.spec_num_channels(),
    {
        self.num_channels
    }

    pub fn num_frames(&self) -> (n: usize)
        requires
            self.wf(),
        ensures
            n == self.spec_num_frames(),
    {
        self.samples.len() / self.num_channels
    }

    /// Consumes the block, handing its interleaved samples back.
    pub fn into_samples(self) -> (r: Vec<T>)
        ensures
            r@ == self.view_samples(),
    {
        self.samples
    }

    /// Copies channel `ch` out as a contiguous block, one sample per frame.
    pub fn select_channel(&self, ch: usize) -> (r: Vec<T>)
        requires
            self.wf(),
            ch < self.spec_num_channels(),
        ensures
            r@.len() == self.spec_num_frames(),
            forall|f: int| 0 <= f < r@.len() ==> r@[f] == self.channel_sample(ch as int, f),
            r@ == self.spec_channel(ch as int),
    {
        let frames = self.num_frames();
        let total: usize = self.samples.len();
        let mut r: Vec<T> = Vec::new();
        let mut f: usize = 0;
        while f < frames
            invariant
                self.wf(),
                ch < self.spec_num_channels(),
                frames == self.spec_num_frames(),
                total == self.view_samples().len(),
                f <= frames,
                r@.len() == f,
                forall|k: int| 0 <= k < f ==> r@[k] == self.channel_sample(ch as int, k),
            decreases frames - f,
        {
            proof {
                lemma_frame_index_bound(
                    self.view_samples().len() as int,
                    self.spec_num_channels(),
                    f as int,
                    ch as int,
                );
            }
            r.push(self.samples[f * self.num_channels + ch]);
            f += 1;
        }
        proof {
            assert(r@ =~= self.spec_channel(ch as int));
        }
        r
    }

    /// Copies channel `ch` out into `out`, one sample per frame; `out` keeps
    /// its tail past the frame count.
    pub fn copy_channel_to_slice(&self, ch: usize, out: &mut Vec<T>)
        requires
            self.wf(),
            ch < self.spec_num_channels(),
            old(out)@.len() >= self.spec_num_frames(),
        ensures
            final(out)@.len() == old(out)@.len(),
            forall|f: int|
                0 <= f < self.spec_num_frames() ==> final(out)@[f] == self.channel_sample(
                    ch as int,
                    f,
                ),
            forall|k: int|
                self.spec_num_frames() <= k < old(out)@.len() ==> final(out)@[k] == old(out)@[k],
    {
        let frames = self.num_frames();
        let total: usize = self.samples.len();
        let mut f: usize = 0;
        while f < frames
            invariant
                self.wf(),
                ch < self.spec_num_channels(),
                frames == self.spec_num_frames(),
                total == self.view_samples().len(),
                f <= frames,
                out@.len() == old(out)@.len(),
                old(out)@.len() >= frames,
                forall|k: int| 0 <= k < f ==> out@[k] == self.channel_sample(ch as int, k),
                forall|k: int| f <= k < old(out)@.len() ==> out@[k] == old(out)@[k],
            decreases frames - f,
        {
            proof {
                lemma_frame_index_bound(
                    self.view_samples().len() as int,
                    self.spec_num_channels(),
                    f as int,
                    ch as int,
                );
            }
            let v = self.samples[f * self.num_channels + ch];
            out.set(f, v);
            f += 1;
        }
    }

    /// Writes `src` into channel `ch`, one sample per frame; other channels
    /// keep their samples.
    pub fn copy_channel_from_slice(&mut self, ch: usize, src: &Vec<T>)
        requires
            old(self).wf(),
            ch < old(self).spec_num_channels(),
            src@.len() >= old(self).spec_num_frames(),
        ensures
            final(self).wf(),
            final(self).spec_num_channels() == old(self).spec_num_channels(),
            final(self).view_samples().len() == old(self).view_samples().len(),
            forall|f: int|
                0 <= f < old(self).spec_num_frames() ==> final(self).channel_sample(ch as int, f)
                    == src@[f],
            forall|i: int|
                0 <= i < old(self).view_samples().len() && i % old(self).spec_num_channels()
                    != ch as int ==> final(self).view_samples()[i] == old(self).view_samples()[i],
            forall|c2: int, f: int|
                0 <= c2 < old(self).spec_num_channels() && c2 != ch as int && 0 <= f < old(
                    self,
                ).spec_num_frames() ==> final(self).channel_sample(c2, f) == old(
                    self,
                ).channel_sample(c2, f),
            final(self).spec_channel(ch as int) == src@.take(old(self).spec_num_frames()),
            forall|c2: int|
                0 <= c2 < old(self).spec_num_channels() && c2 != ch as int ==> final(
                    self
                ).spec_channel(c2) == old(self).spec_channel(c2),
    {
        let frames = self.num_frames();
        let nc = self.num_channels;
        let total: usize = self.samples.len();
        let ghost orig = *self;
        let mut f: usize = 0;
        while f < frames
            invariant
                total == self.samples@.len(),
                orig.wf(),
                self.num_channels == orig.num_channels,
                ch < orig.spec_num_channels(),
                nc == orig.num_channels,
                frames == orig.spec_num_frames(),
                src@.len() >= frames,
                f <= frames,
                self.samples@.len() == orig.view_samples().len(),
                forall|k: int|
                    0 <= k < f ==> self.samples@[k * orig.spec_num_channels() + ch as int]
                        == src@[k],
                forall|i: int|
                    0 <= i < orig.view_samples().len() && i % orig.spec_num_channels() != ch as int
                        ==> self.samples@[i] == orig.view_samples()[i],
            decreases frames - f,
        {
            proof {
                lemma_frame_index_bound(
                    orig.view_samples().len() as int,
                    orig.spec_num_channels(),
                    f as int,
                    ch as int,
                );
                assert((f * nc + ch) as int % orig.spec_num_channels() == ch as int) by (
                nonlinear_arith)
                    requires
                        nc as int == orig.spec_num_channels(),
                        0 <= ch < nc,
                        f >= 0,
                ;
            }
            let v = src[f];
            self.samples.set(f * nc + ch, v);
            proof {
                assert forall|k: int|
                    0 <= k < f + 1 implies self.samples@[k * orig.spec_num_channels() + ch as int]
                    == src@[k] by {
                    if k < f {
                        lemma_frame_index_bound(
                            orig.view_samples().len() as int,
                            orig.spec_num_channels(),
                            k,
                            ch as int,
                        );
                        lemma_distinct_frame_slots(orig.spec_num_channels(), k, f as int, ch as int);
                    }
                }
            }
            f += 1;
        }
        proof {
            assert forall|f2: int|
                0 <= f2 < orig.spec_num_frames() implies self.channel_sample(ch as int, f2)
                == src@[f2] by {
            }
            assert forall|c2: int, f2: int|
                0 <= c2 < orig.spec_num_channels() && c2 != ch as int && 0 <= f2
                    < orig.spec_num_frames() implies self.channel_sample(c2, f2)
                == orig.channel_sample(c2, f2) by {
                lemma_frame_index_bound(
                    orig.view_samples().len() as int,
                    orig.spec_num_channels(),
                    f2,
                    c2,
                );
            }
            assert(self.spec_channel(ch as int) =~= src@.take(orig.spec_num_frames()));
            assert forall|c2: int|
                0 <= c2 < orig.spec_num_channels() && c2 != ch as int implies self.spec_channel(c2)
                =~= orig.spec_channel(c2) by {
            }
        }
    }
}

/// An owned copy of a sample block.
pub fn copy_samples<T: Copy>(v: &Vec<T>) -> (r: Vec<T>)
    ensures
        r@ == v@,
{
    let n = v.len();
    let mut r: Vec<T> = Vec::new();
    let mut i: usize = 0;
    while i < n
        invariant
            i <= n,
            n == v@.len(),
            r@.len() == i,
            forall|k: int| 0 <= k < i ==> r@[k] == v@[k],
        decreases n - i,
    {
        r.push(v[i]);
        i += 1;
    }
    proof {
        assert(r@ =~= v@);
    }
    r
}

/// In a whole-frame buffer the slot of channel `ch` in frame `f` lies inside
/// the buffer, and it belongs to channel `ch`.
proof fn lemma_frame_index_bound(len: int, nc: int, f: int, ch: int)
    requires
        nc >= 1,
        len % nc == 0,
        0 <= ch < nc,
        0 <= f < len / nc,
    ensures
        0 <= f * nc + ch < len,
        (f * nc + ch) % nc == ch,
{
    vstd::arithmetic::div_mod::lemma_fundamental_div_mod(len, nc);
    assert(len == nc * (len / nc));
    assert(f * nc + ch < (len / nc) * nc) by (nonlinear_arith)
        requires
            0 <= f < len / nc,
            0 <= ch < nc,
    ;
    assert((len / nc) * nc == nc * (len / nc)) by (nonlinear_arith);
    assert(0 <= f * nc + ch) by (nonlinear_arith)
        requires
            f >= 0,
            nc >= 1,
            ch >= 0,
    ;
    assert((f * nc + ch) % nc == ch) by (nonlinear_arith)
        requires
            nc >= 1,
            0 <= ch < nc,
            f >= 0,
    ;
}

/// Two different frames use different slots of one channel.
proof fn lemma_distinct_frame_slots(nc: int, f1: int, f2: int, ch: int)
    by (nonlinear_arith)
    requires
        nc >= 1,
        0 <= ch < nc,
        f1 != f2,
    ensures
        f1 * nc + ch != f2 * nc + ch,
{
}

} // verus!
