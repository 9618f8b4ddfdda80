//! Bounded, pool-backed sample exchange between producer and consumer
//! callback contexts.
//!
//! One fixed-capacity ring of raw samples decouples the two block sizes; two
//! pre-filled free pools hand out whole blocks so the hot path neither blocks
//! nor allocates. Samples travel as opaque 32-bit words — the bit patterns of
//! the stream's scalar samples — so the exchange logic is independent of the
//! numeric type; each side converts at the boundary. Submitting into a full
//! ring drops the excess instead of waiting, a deliberate lossy-under-overload
//! policy; draining never yields a short block: either a whole consumer-sized
//! block is ready or nothing is taken.

use vstd::prelude::*;

verus! {

#[verifier::external_type_specification]
#[verifier::external_body]
#[verifier::reject_recursive_types(T)]
pub struct ExConcurrentQueue<T>(concurrent_queue::ConcurrentQueue<T>);

/// The bounded sample ring. Verus refuses to declare ringbuf's ring type
/// itself (its storage parameter carries an outside trait bound), so the
/// ring lives opaquely in this wrapper struct and is spoken of only through
/// `ring_contents` and `ring_capacity`.
#[verifier::external_body]
pub struct SampleRing {
    rb: ringbuf::HeapRb<u32>,
}

/// What a block pool holds, oldest first.
pub uninterp spec fn pool_contents(q: concurrent_queue::ConcurrentQueue<Vec<u32>>) -> Seq<
    Seq<u32>,
>;

/// The bound a block pool was created with.
pub uninterp spec fn pool_capacity(q: concurrent_queue::ConcurrentQueue<Vec<u32>>) -> nat;

/// Whether the pool still accepts pushes; this engine never closes one.
pub uninterp spec fn pool_is_open(q: concurrent_queue::ConcurrentQueue<Vec<u32>>) -> bool;

/// What the sample ring holds, oldest first.
pub uninterp spec fn ring_contents(rb: SampleRing) -> Seq<u32>;

/// The bound the sample ring was created with.
pub uninterp spec fn ring_capacity(rb: SampleRing) -> nat;

/// Relies on concurrent_queue::ConcurrentQueue::bounded: a new, open, empty
/// queue of exactly `cap` slots. A zero bound would panic, so it is ruled
/// out.
#[verifier::external_body]
fn pool_new(cap: usize) -> (q: concurrent_queue::ConcurrentQueue<Vec<u32>>)
    requires
        1 <= cap,
    ensures
        pool_contents(q) =~= Seq::<Seq<u32>>::empty(),
        pool_capacity(q) == cap,
        pool_is_open(q),
{
    concurrent_queue::ConcurrentQueue::bounded(cap)
}

/// Relies on concurrent_queue::ConcurrentQueue::push: appends at the back of
/// an open queue with a free slot, and reports a full or closed queue as an
/// error with the value handed back (here: dropped).
#[verifier::external_body]
fn pool_push(q: &mut concurrent_queue::ConcurrentQueue<Vec<u32>>, v: Vec<u32>) -> (pushed: bool)
    ensures
        pool_capacity(*final(q)) == pool_capacity(*old(q)),
        pool_is_open(*final(q)) == pool_is_open(*old(q)),
        pool_is_open(*old(q)) && pool_contents(*old(q)).len() < pool_capacity(*old(q)) ==> pushed,
        pushed ==> pool_contents(*old(q)).len() < pool_capacity(*old(q)),
        pushed ==> pool_contents(*final(q)) =~= pool_contents(*old(q)).push(v@),
        !pushed ==> pool_contents(*final(q)) =~= pool_contents(*old(q)),
{
    q.push(v).is_ok()
}

/// Relies on concurrent_queue::ConcurrentQueue::pop: takes the oldest element
/// when one is there, and reports an empty queue as an error.
#[verifier::external_body]
fn pool_pop(q: &mut concurrent_queue::ConcurrentQueue<Vec<u32>>) -> (r: Option<Vec<u32>>)
    ensures
        pool_capacity(*final(q)) == pool_capacity(*old(q)),
        pool_is_open(*final(q)) == pool_is_open(*old(q)),
        pool_contents(*old(q)).len() >= 1 ==> (r matches Some(b) && b@ == pool_contents(*old(q))[0]
            && pool_contents(*final(q)) =~= pool_contents(*old(q)).drop_first()),
        pool_contents(*old(q)).len() == 0 ==> r is None && pool_contents(*final(q)) =~= pool_contents(
            *old(q),
        ),
{
    q.pop().ok()
}

/// Relies on ringbuf's SharedRb::new: a new empty ring of exactly `cap`
/// sample slots. A zero capacity would panic, so it is ruled out.
#[verifier::external_body]
fn ring_new(cap: usize) -> (rb: SampleRing)
    requires
        1 <= cap,
    ensures
        ring_contents(rb) =~= Seq::<u32>::empty(),
        ring_capacity(rb) == cap,
{
    SampleRing { rb: ringbuf::HeapRb::new(cap) }
}

/// Relies on ringbuf's Producer::push_slice on an owned ring: appends exactly
/// as many leading samples of `data` as there are vacant slots, and returns
/// that count.
#[verifier::external_body]
fn ring_push_slice(rb: &mut SampleRing, data: &Vec<u32>) -> (n: usize)
    ensures
        ring_capacity(*final(rb)) == ring_capacity(*old(rb)),
        n == min_int(
            data@.len() as int,
            ring_capacity(*old(rb)) as int - ring_contents(*old(rb)).len() as int,
        ),
        ring_contents(*final(rb)) =~= ring_contents(*old(rb)) + data@.take(n as int),
{
    ringbuf::traits::Producer::push_slice(&mut rb.rb, data.as_slice())
}

/// Relies on ringbuf's Consumer::pop_slice on an owned ring: moves exactly
/// `min(out len, occupied)` oldest samples into the front of `out`, and
/// returns that count.
#[verifier::external_body]
fn ring_pop_slice(rb: &mut SampleRing, out: &mut Vec<u32>) -> (n: usize)
    ensures
        ring_capacity(*final(rb)) == ring_capacity(*old(rb)),
        n == min_int(old(out)@.len() as int, ring_contents(*old(rb)).len() as int),
        final(out)@ =~= ring_contents(*old(rb)).take(n as int) + old(out)@.skip(n as int),
        ring_contents(*final(rb)) =~= ring_contents(*old(rb)).skip(n as int),
{
    ringbuf::traits::Consumer::pop_slice(&mut rb.rb, out.as_mut_slice())
}

/// Relies on ringbuf's Observer::occupied_len on an owned ring: how many
/// samples wait in it.
#[verifier::external_body]
fn ring_occupied_len(rb: &SampleRing) -> (n: usize)
    ensures
        n == ring_contents(*rb).len(),
{
    ringbuf::traits::Observer::occupied_len(&rb.rb)
}

pub open spec fn min_int(a: int, b: int) -> int {
    if a <= b {
        a
    } else {
        b
    }
}

/// How many samples one submission actually keeps: all of them, or as many
/// as the ring still has room for.
pub open spec fn spec_pushed_count(ring: Seq<u32>, cap: int, data: Seq<u32>) -> int {
    min_int(data.len() as int, cap - ring.len() as int)
}

/// The ring after one submission: the kept prefix of the submitted samples,
/// appended in order behind everything already waiting.
pub open spec fn spec_ring_after_submit(ring: Seq<u32>, cap: int, data: Seq<u32>) -> Seq<u32> {
    ring + data.take(spec_pushed_count(ring, cap, data))
}

/// Law: within capacity the ring is first-in-first-out with nothing lost and
/// nothing duplicated. Submitting `a` and then `b` into a ring already
/// holding `s`, when the three together do not exceed the capacity, keeps
/// every sample once, in submission order; a drain of `n` samples then
/// yields exactly the oldest `n` of them.
pub proof fn lemma_ring_fifo_round_trip(s: Seq<u32>, a: Seq<u32>, b: Seq<u32>, cap: int, n: int)
    requires
        s.len() + a.len() + b.len() <= cap,
        0 <= n <= s.len() + a.len() + b.len(),
    ensures
        spec_ring_after_submit(spec_ring_after_submit(s, cap, a), cap, b) =~= s + a + b,
        (s + a + b).take(n) + (s + a + b).skip(n) =~= s + a + b,
{
    assert(a.take(a.len() as int) =~= a);
    assert(b.take(b.len() as int) =~= b);
}

/// The ring after a whole run of submissions, first submission first.
pub open spec fn spec_ring_after_submits(ring: Seq<u32>, cap: int, submissions: Seq<Seq<u32>>) -> Seq<
    u32,
>
    decreases submissions.len(),
{
    if submissions.len() == 0 {
        ring
    } else {
        spec_ring_after_submits(
            spec_ring_after_submit(ring, cap, submissions[0]),
            cap,
            submissions.drop_first(),
        )
    }
}

/// How many samples a run of submissions carries in all.
pub open spec fn spec_total_len(submissions: Seq<Seq<u32>>) -> int
    decreases submissions.len(),
{
    if submissions.len() == 0 {
        0
    } else {
        submissions[0].len() + spec_total_len(submissions.drop_first())
    }
}

/// The samples of a run of submissions, flattened in submission order.
pub open spec fn spec_submitted_samples(submissions: Seq<Seq<u32>>) -> Seq<u32>
    decreases submissions.len(),
{
    if submissions.len() == 0 {
        Seq::<u32>::empty()
    } else {
        submissions[0] + spec_submitted_samples(submissions.drop_first())
    }
}

proof fn lemma_total_len_nonneg(submissions: Seq<Seq<u32>>)
    ensures
        spec_total_len(submissions) >= 0,
    decreases submissions.len(),
{
    if submissions.len() > 0 {
        lemma_total_len_nonneg(submissions.drop_first());
    }
}

/// Law, general form: a run of submissions of any length that together do
/// not exceed the ring's free space lands whole — the consumer side sees
/// every submitted sample exactly once, in submission order, behind what
/// was already waiting.
pub proof fn lemma_ring_fifo_general(ring: Seq<u32>, cap: int, submissions: Seq<Seq<u32>>)
    requires
        ring.len() + spec_total_len(submissions) <= cap,
    ensures
        spec_ring_after_submits(ring, cap, submissions) =~= ring + spec_submitted_samples(
            submissions,
        ),
    decreases submissions.len(),
{
    if submissions.len() == 0 {
        assert(spec_ring_after_submits(ring, cap, submissions) =~= ring + spec_submitted_samples(
            submissions,
        ));
    } else {
        let first = submissions[0];
        let rest = submissions.drop_first();
        lemma_total_len_nonneg(rest);
        assert(spec_ring_after_submit(ring, cap, first) =~= ring + first) by {
            assert(first.take(first.len() as int) =~= first);
        }
        lemma_ring_fifo_general(ring + first, cap, rest);
        assert(spec_ring_after_submits(ring, cap, submissions) =~= (ring + first)
            + spec_submitted_samples(rest));
        assert((ring + first) + spec_submitted_samples(rest) =~= ring + (first
            + spec_submitted_samples(rest)));
    }
}

/// Two free pools of pre-sized blocks and one bounded sample ring.
pub struct AudioSwapchain {
    pub input_bufs: concurrent_queue::ConcurrentQueue<Vec<u32>>,
    pub output_bufs: concurrent_queue::ConcurrentQueue<Vec<u32>>,
    pub ring: SampleRing,
    pub in_buf_size: usize,
    pub out_buf_size: usize,
    pub desired_rb_size: usize,
}

impl AudioSwapchain {
    pub open spec fn wf(&self) -> bool {
        &&& 1 <= self.in_buf_size
        &&& 1 <= self.out_buf_size
        &&& 1 <= self.desired_rb_size
        &&& pool_is_open(self.input_bufs)
        &&& pool_is_open(self.output_bufs)
        &&& pool_contents(self.input_bufs).len() <= pool_capacity(self.input_bufs)
        &&& pool_contents(self.output_bufs).len() <= pool_capacity(self.output_bufs)
        &&& forall|k: int|
            0 <= k < pool_contents(self.input_bufs).len() ==> (#[trigger] pool_contents(
                self.input_bufs,
            )[k]).len() == self.in_buf_size
        &&& forall|k: int|
            0 <= k < pool_contents(self.output_bufs).len() ==> (#[trigger] pool_contents(
                self.output_bufs,
            )[k]).len() == self.out_buf_size
        &&& ring_capacity(self.ring) == self.desired_rb_size
        &&& ring_contents(self.ring).len() <= ring_capacity(self.ring)
    }

    /// Sizes the ring to `max(producer block, consumer block) * packet
    /// headroom` and fills each pool with enough zeroed blocks to cover the
    /// ring, rounded up to whole blocks.
    pub fn new(in_buf_size: usize, out_buf_size: usize, min_num_packets: usize) -> (r: Self)
        requires
            1 <= in_buf_size,
            1 <= out_buf_size,
            1 <= min_num_packets,
            (if in_buf_size >= out_buf_size {
                in_buf_size
            } else {
                out_buf_size
            }) * min_num_packets + in_buf_size + out_buf_size <= usize::MAX,
        ensures
            r.wf(),
            r.in_buf_size == in_buf_size,
            r.out_buf_size == out_buf_size,
            r.desired_rb_size == (if in_buf_size >= out_buf_size {
                in_buf_size
            } else {
                out_buf_size
            }) * min_num_packets,
            ring_contents(r.ring) =~= Seq::<u32>::empty(),
            pool_contents(r.input_bufs).len() == pool_capacity(r.input_bufs),
            pool_capacity(r.input_bufs) == (r.desired_rb_size + in_buf_size - 1) as int
                / in_buf_size as int,
            pool_contents(r.output_bufs).len() == pool_capacity(r.output_bufs),
            pool_capacity(r.output_bufs) == (r.desired_rb_size + out_buf_size - 1) as int
                / out_buf_size as int,
            pool_contents(r.input_bufs).len() >= 1,
            pool_contents(r.output_bufs).len() >= 1,
    {
        let larger: usize = if in_buf_size >= out_buf_size {
            in_buf_size
        } else {
            out_buf_size
        };
        let rb_size: usize = larger * min_num_packets;
        proof {
            assert(rb_size >= 1) by (nonlinear_arith)
                requires
                    rb_size == larger * min_num_packets,
                    larger >= 1,
                    min_num_packets >= 1,
            ;
        }

        let in_pool_cap: usize = (rb_size + in_buf_size - 1) / in_buf_size;
        let out_pool_cap: usize = (rb_size + out_buf_size - 1) / out_buf_size;
        proof {
            assert(in_pool_cap >= 1) by (nonlinear_arith)
                requires
                    in_pool_cap == (rb_size + in_buf_size - 1) as int / in_buf_size as int,
                    rb_size >= 1,
                    in_buf_size >= 1,
            ;
            assert(out_pool_cap >= 1) by (nonlinear_arith)
                requires
                    out_pool_cap == (rb_size + out_buf_size - 1) as int / out_buf_size as int,
                    rb_size >= 1,
                    out_buf_size >= 1,
            ;
        }

        let mut input_bufs = pool_new(in_pool_cap);
        let mut filled: usize = 0;
        while filled < in_pool_cap
            invariant
                1 <= in_buf_size,
                filled <= in_pool_cap,
                pool_is_open(input_bufs),
                pool_capacity(input_bufs) == in_pool_cap,
                pool_contents(input_bufs).len() == filled,
                forall|k: int|
                    0 <= k < filled ==> (#[trigger] pool_contents(input_bufs)[k]).len()
                        == in_buf_size,
            decreases in_pool_cap - filled,
        {
            let _pushed = pool_push(&mut input_bufs, zero_words(in_buf_size));
            filled += 1;
        }

        let mut output_bufs = pool_new(out_pool_cap);
        let mut filled: usize = 0;
        while filled < out_pool_cap
            invariant
                1 <= out_buf_size,
                filled <= out_pool_cap,
                pool_is_open(output_bufs),
                pool_capacity(output_bufs) == out_pool_cap,
                pool_contents(output_bufs).len() == filled,
                forall|k: int|
                    0 <= k < filled ==> (#[trigger] pool_contents(output_bufs)[k]).len()
                        == out_buf_size,
            decreases out_pool_cap - filled,
        {
            let _pushed = pool_push(&mut output_bufs, zero_words(out_buf_size));
            filled += 1;
        }

        let ring = ring_new(rb_size);
        AudioSwapchain {
            input_bufs,
            output_bufs,
            ring,
            in_buf_size,
            out_buf_size,
            desired_rb_size: rb_size,
        }
    }

    /// Hands out a free producer-sized block, or nothing when the pool is
    /// exhausted and the producer must skip this cycle.
    pub fn acquire_free_input_buf(&mut self) -> (r: Option<Vec<u32>>)
        requires
            old(self).wf(),
        ensures
            final(self).wf(),
            final(self).in_buf_size == old(self).in_buf_size,
            final(self).out_buf_size == old(self).out_buf_size,
            final(self).desired_rb_size == old(self).desired_rb_size,
            final(self).output_bufs == old(self).output_bufs,
            final(self).ring == old(self).ring,
            r is Some <==> pool_contents(old(self).input_bufs).len() >= 1,
            r matches Some(b) ==> (b@ == pool_contents(old(self).input_bufs)[0] && b@.len()
                == old(self).in_buf_size && pool_contents(final(self).input_bufs) =~= pool_contents(
                old(self).input_bufs,
            ).drop_first()),
            r is None ==> pool_contents(final(self).input_bufs) =~= pool_contents(
                old(self).input_bufs,
            ),
    {
        pool_pop(&mut self.input_bufs)
    }

    /// Returns a producer-sized block to its pool; a block is only dropped if
    /// more blocks are released than were ever handed out.
    pub fn release_input_buf(&mut self, buf: Vec<u32>) -> (accepted: bool)
        requires
            old(self).wf(),
            buf@.len() == old(self).in_buf_size,
        ensures
            final(self).wf(),
            final(self).in_buf_size == old(self).in_buf_size,
            final(self).out_buf_size == old(self).out_buf_size,
            final(self).desired_rb_size == old(self).desired_rb_size,
            final(self).output_bufs == old(self).output_bufs,
            final(self).ring == old(self).ring,
            pool_contents(old(self).input_bufs).len() < pool_capacity(old(self).input_bufs)
                ==> accepted,
            accepted ==> pool_contents(final(self).input_bufs) =~= pool_contents(
                old(self).input_bufs,
            ).push(buf@),
            !accepted ==> pool_contents(final(self).input_bufs) =~= pool_contents(
                old(self).input_bufs,
            ),
    {
        pool_push(&mut self.input_bufs, buf)
    }

    /// Returns a consumer-sized block to its pool.
    pub fn release_output_buf(&mut self, buf: Vec<u32>) -> (accepted: bool)
        requires
            old(self).wf(),
            buf@.len() == old(self).out_buf_size,
        ensures
            final(self).wf(),
            final(self).in_buf_size == old(self).in_buf_size,
            final(self).out_buf_size == old(self).out_buf_size,
            final(self).desired_rb_size == old(self).desired_rb_size,
            final(self).input_bufs == old(self).input_bufs,
            final(self).ring == old(self).ring,
            pool_contents(old(self).output_bufs).len() < pool_capacity(old(self).output_bufs)
                ==> accepted,
            accepted ==> pool_contents(final(self).output_bufs) =~= pool_contents(
                old(self).output_bufs,
            ).push(buf@),
            !accepted ==> pool_contents(final(self).output_bufs) =~= pool_contents(
                old(self).output_bufs,
            ),
    {
        pool_push(&mut self.output_bufs, buf)
    }

    /// Pushes raw samples into the ring in order. A full ring keeps what it
    /// has and the overflow is dropped; the number of dropped samples is
    /// returned so the caller can warn about overload.
    pub fn submit_input(&mut self, data: &Vec<u32>) -> (dropped: usize)
        requires
            old(self).wf(),
        ensures
            final(self).wf(),
            final(self).in_buf_size == old(self).in_buf_size,
            final(self).out_buf_size == old(self).out_buf_size,
            final(self).desired_rb_size == old(self).desired_rb_size,
            final(self).input_bufs == old(self).input_bufs,
            final(self).output_bufs == old(self).output_bufs,
            ring_contents(final(self).ring) =~= spec_ring_after_submit(
                ring_contents(old(self).ring),
                ring_capacity(old(self).ring) as int,
                data@,
            ),
            dropped == data@.len() - spec_pushed_count(
                ring_contents(old(self).ring),
                ring_capacity(old(self).ring) as int,
                data@,
            ),
    {
        let n = ring_push_slice(&mut self.ring, data);
        data.len() - n
    }

    /// Drains one whole consumer-sized block, or reports "not ready".
    ///
    /// A block comes back exactly when a pool block is free and the ring
    /// holds at least a block's worth of samples; it then carries the oldest
    /// `out_buf_size` samples in submission order. A short ring never yields
    /// a partial block: the pool block goes back and the caller substitutes
    /// silence.
    pub fn acquire_ready_output_buf(&mut self) -> (r: Option<Vec<u32>>)
        requires
            old(self).wf(),
        ensures
            final(self).wf(),
            final(self).in_buf_size == old(self).in_buf_size,
            final(self).out_buf_size == old(self).out_buf_size,
            final(self).desired_rb_size == old(self).desired_rb_size,
            final(self).input_bufs == old(self).input_bufs,
            r is Some <==> pool_contents(old(self).output_bufs).len() >= 1 && ring_contents(
                old(self).ring,
            ).len() >= old(self).out_buf_size,
            r matches Some(b) ==> (b@.len() == old(self).out_buf_size && b@ =~= ring_contents(
                old(self).ring,
            ).take(
                old(self).out_buf_size as int,
            ) && ring_contents(final(self).ring) =~= ring_contents(old(self).ring).skip(
                old(self).out_buf_size as int,
            ) && pool_contents(final(self).output_bufs) =~= pool_contents(
                old(self).output_bufs,
            ).drop_first()),
            r is None ==> ring_contents(final(self).ring) =~= ring_contents(old(self).ring),
            r is None && pool_contents(old(self).output_bufs).len() == 0 ==> pool_contents(
                final(self).output_bufs,
            ) =~= pool_contents(old(self).output_bufs),
            r is None && pool_contents(old(self).output_bufs).len() >= 1 ==> pool_contents(
                final(self).output_bufs,
            ) =~= pool_contents(old(self).output_bufs).drop_first().push(
                pool_contents(old(self).output_bufs)[0],
            ),
    {
        let popped = pool_pop(&mut self.output_bufs);
        match popped {
            None => None,
            Some(mut buf) => {
                let occupied = ring_occupied_len(&self.ring);
                if occupied < self.out_buf_size {
                    let _accepted = pool_push(&mut self.output_bufs, buf);
                    None
                } else {
                    let n = ring_pop_slice(&mut self.ring, &mut buf);
                    proof {
                        assert(buf@ =~= ring_contents(old(self).ring).take(
                            old(self).out_buf_size as int,
                        ));
                    }
                    Some(buf)
                }
            },
        }
    }

    pub fn desired_rb_size(&self) -> (n: usize)
        ensures
            n == self.desired_rb_size,
    {
        self.desired_rb_size
    }
}

/// A block of zeroed sample words.
fn zero_words(len: usize) -> (r: Vec<u32>)
    ensures
        r@.len() == len,
        forall|k: int| 0 <= k < len ==> r@[k] == 0u32,
{
    let mut r: Vec<u32> = Vec::new();
    let mut i: usize = 0;
    while i < len
        invariant
            i <= len,
            r@.len() == i,
            forall|k: int| 0 <= k < i ==> r@[k] == 0u32,
        decreases len - i,
    {
        r.push(0);
        i += 1;
    }
    r
}

} // verus!
