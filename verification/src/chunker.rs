//! The audio chunker.
//!
//! The console core produces audio one sample at a time. The host wants it in
//! chunks of a fixed size. The [`SampleQueue`] collects samples and gives out
//! a chunk at the very push that completes it.
//!
//! A sample is held as the bit pattern of a 32-bit float.

use vstd::prelude::*;

verus! {

/// The number of samples in a chunk unless another size is asked for.
pub const CHUNK_SIZE: usize = 2048;

/// Whether one more sample completes a chunk, for a queue of `len` samples.
pub open spec fn fills_chunk(len: nat, chunk_size: nat) -> bool {
    len + 1 >= chunk_size
}

/// The queue after `sample` has been pushed: empty if the push completed a
/// chunk, else one sample longer.
pub open spec fn queue_after_push(queue: Seq<u32>, chunk_size: nat, sample: u32) -> Seq<u32> {
    if fills_chunk(queue.len(), chunk_size) {
        Seq::empty()
    } else {
        queue.push(sample)
    }
}

/// The chunk that pushing `sample` hands off, if it completes one.
pub open spec fn chunk_from_push(
    queue: Seq<u32>,
    chunk_size: nat,
    sample: u32,
) -> Option<Seq<u32>> {
    if fills_chunk(queue.len(), chunk_size) {
        Some(queue.push(sample))
    } else {
        None
    }
}

/// The queue after all of `samples` have been pushed, in order.
pub open spec fn queue_after(queue: Seq<u32>, chunk_size: nat, samples: Seq<u32>) -> Seq<u32>
    decreases samples.len(),
{
    if samples.len() == 0 {
        queue
    } else {
        queue_after_push(
            queue_after(queue, chunk_size, samples.drop_last()),
            chunk_size,
            samples.last(),
        )
    }
}

/// The chunks handed off while all of `samples` are pushed, in order.
pub open spec fn chunks_from(
    queue: Seq<u32>,
    chunk_size: nat,
    samples: Seq<u32>,
) -> Seq<Seq<u32>>
    decreases samples.len(),
{
    if samples.len() == 0 {
        Seq::empty()
    } else {
        let earlier = chunks_from(queue, chunk_size, samples.drop_last());
        let waiting = queue_after(queue, chunk_size, samples.drop_last());
        match chunk_from_push(waiting, chunk_size, samples.last()) {
            Some(chunk) => earlier.push(chunk),
            None => earlier,
        }
    }
}

/// One push into a queue that is not yet full leaves `(len + 1) % chunk_size`
/// samples where it completes a chunk and `len + 1` samples where it does
/// not, and it hands off a chunk in the first case only.
pub proof fn lemma_push_length(queue: Seq<u32>, chunk_size: nat, sample: u32)
    requires
        queue.len() < chunk_size,
    ensures
        queue_after_push(queue, chunk_size, sample).len() == if queue.len() + 1 == chunk_size {
            (queue.len() + 1) % chunk_size
        } else {
            queue.len() + 1
        },
        chunk_from_push(queue, chunk_size, sample) is Some <==> queue.len() + 1 == chunk_size,
        queue_after_push(queue, chunk_size, sample).len() < chunk_size,
{
    if queue.len() + 1 == chunk_size {
        assert((queue.len() + 1) % chunk_size == 0) by {
            vstd::arithmetic::div_mod::lemma_mod_self_0(chunk_size as int);
        }
    }
}

/// However many samples are pushed, the queue ends up holding what is left
/// over after dividing them into chunks, one chunk was handed off for every
/// `chunk_size` samples, and every chunk is full.
pub proof fn lemma_push_counts(queue: Seq<u32>, chunk_size: nat, samples: Seq<u32>)
    requires
        queue.len() < chunk_size,
    ensures
        queue_after(queue, chunk_size, samples).len() == (queue.len() + samples.len())
            % chunk_size,
        chunks_from(queue, chunk_size, samples).len() == (queue.len() + samples.len())
            / chunk_size,
        forall|i: int|
            0 <= i < chunks_from(queue, chunk_size, samples).len() ==> (#[trigger] chunks_from(
                queue,
                chunk_size,
                samples,
            )[i]).len() == chunk_size,
{
    let total = queue.len() + samples.len();
    let left = queue_after(queue, chunk_size, samples);
    let chunks = chunks_from(queue, chunk_size, samples);
    lemma_push_totals(queue, chunk_size, samples);
    vstd::arithmetic::div_mod::lemma_fundamental_div_mod_converse(
        total as int,
        chunk_size as int,
        chunks.len() as int,
        left.len() as int,
    );
}

/// As long as fewer samples have come in than make a chunk, nothing is
/// handed off and every sample waits.
pub proof fn lemma_no_chunk_before_full(queue: Seq<u32>, chunk_size: nat, samples: Seq<u32>)
    requires
        queue.len() + samples.len() < chunk_size,
    ensures
        chunks_from(queue, chunk_size, samples).len() == 0,
        queue_after(queue, chunk_size, samples) == queue + samples,
    decreases samples.len(),
{
    if samples.len() == 0 {
        assert(queue + samples =~= queue);
    } else {
        lemma_no_chunk_before_full(queue, chunk_size, samples.drop_last());
        assert((queue + samples.drop_last()).push(samples.last()) =~= queue + samples);
    }
}

/// Among any `chunk_size` pushes in a row exactly one hands off a chunk.
pub proof fn lemma_one_chunk_per_chunk_size(queue: Seq<u32>, chunk_size: nat, samples: Seq<u32>)
    requires
        queue.len() < chunk_size,
        samples.len() == chunk_size,
    ensures
        chunks_from(queue, chunk_size, samples).len() == 1,
        queue_after(queue, chunk_size, samples).len() == queue.len(),
{
    lemma_push_totals(queue, chunk_size, samples);
    let chunks = chunks_from(queue, chunk_size, samples).len();
    let left = queue_after(queue, chunk_size, samples).len();
    assert(chunks == 1) by (nonlinear_arith)
        requires
            queue.len() + chunk_size == chunks * chunk_size + left,
            left < chunk_size,
            queue.len() < chunk_size,
    ;
}

/// No sample is lost, repeated or reordered: the chunks handed off, followed
/// by what is still waiting, are the samples that were waiting before
/// followed by the samples pushed.
pub proof fn lemma_push_keeps_samples(queue: Seq<u32>, chunk_size: nat, samples: Seq<u32>)
    ensures
        chunks_from(queue, chunk_size, samples).flatten() + queue_after(
            queue,
            chunk_size,
            samples,
        ) == queue + samples,
    decreases samples.len(),
{
    let chunks = chunks_from(queue, chunk_size, samples);
    let left = queue_after(queue, chunk_size, samples);
    chunks.lemma_flatten_and_flatten_alt_are_equivalent();
    if samples.len() == 0 {
        assert(chunks.flatten_alt() + left =~= queue + samples);
    } else {
        let before = samples.drop_last();
        let earlier = chunks_from(queue, chunk_size, before);
        let waiting = queue_after(queue, chunk_size, before);
        lemma_push_keeps_samples(queue, chunk_size, before);
        earlier.lemma_flatten_and_flatten_alt_are_equivalent();
        if fills_chunk(waiting.len(), chunk_size) {
            assert(chunks.drop_last() =~= earlier);
        }
        assert(chunks.flatten_alt() + left =~= (earlier.flatten_alt() + waiting).push(
            samples.last(),
        ));
        assert((queue + before).push(samples.last()) =~= queue + samples);
    }
}

proof fn lemma_push_totals(queue: Seq<u32>, chunk_size: nat, samples: Seq<u32>)
    requires
        queue.len() < chunk_size,
    ensures
        queue.len() + samples.len() == chunks_from(queue, chunk_size, samples).len() * chunk_size
            + queue_after(queue, chunk_size, samples).len(),
        queue_after(queue, chunk_size, samples).len() < chunk_size,
        forall|i: int|
            0 <= i < chunks_from(queue, chunk_size, samples).len() ==> (#[trigger] chunks_from(
                queue,
                chunk_size,
                samples,
            )[i]).len() == chunk_size,
    decreases samples.len(),
{
    if samples.len() > 0 {
        let before = samples.drop_last();
        lemma_push_totals(queue, chunk_size, before);
        let earlier = chunks_from(queue, chunk_size, before);
        assert((earlier.len() + 1) * chunk_size == earlier.len() * chunk_size + chunk_size)
            by (nonlinear_arith);
    }
}

/// Samples waiting to become a chunk.
pub struct SampleQueue {
    samples: Vec<u32>,
    chunk_size: usize,
}

impl View for SampleQueue {
    type V = Seq<u32>;

    /// The waiting samples, oldest first.
    closed spec fn view(&self) -> Seq<u32> {
        self.samples@
    }
}

impl SampleQueue {
    #[verifier::type_invariant]
    spec fn well_formed(self) -> bool {
        self.samples@.len() == 0 || self.samples@.len() < self.chunk_size
    }

    /// The chunk size that the queue was made with.
    pub closed spec fn threshold(self) -> usize {
        self.chunk_size
    }

    /// An empty queue that hands off a chunk whenever it holds `chunk_size`
    /// samples. With a `chunk_size` of 0 or 1 every sample is a chunk.
    pub fn new(chunk_size: usize) -> (queue: Self)
        ensures
            queue@ == Seq::<u32>::empty(),
            queue.threshold() == chunk_size,
    {
        SampleQueue { samples: Vec::new(), chunk_size }
    }

    /// The chunk size that the queue was made with.
    pub fn chunk_size(&self) -> (n: usize)
        ensures
            n == self.threshold(),
    {
        self.chunk_size
    }

    /// The number of waiting samples. It never reaches the chunk size.
    pub fn len(&self) -> (n: usize)
        ensures
            n == self@.len(),
            n == 0 || n < self.threshold(),
    {
        proof {
            use_type_invariant(self);
        }
        self.samples.len()
    }

    /// Appends one sample. If that completes a chunk, the whole chunk is
    /// returned, oldest sample first, and the queue is left empty.
    pub fn push(&mut self, sample: u32) -> (chunk: Option<Vec<u32>>)
        ensures
            final(self).threshold() == old(self).threshold(),
            final(self)@ == queue_after_push(old(self)@, old(self).threshold() as nat, sample),
            chunk is Some == fills_chunk(old(self)@.len(), old(self).threshold() as nat),
            chunk matches Some(c) ==> Some(c@) == chunk_from_push(
                old(self)@,
                old(self).threshold() as nat,
                sample,
            ),
    {
        proof {
            use_type_invariant(&*self);
        }
        let mut samples: Vec<u32> = Vec::new();
        std::mem::swap(&mut samples, &mut self.samples);
        samples.push(sample);
        if samples.len() >= self.chunk_size {
            Some(samples)
        } else {
            self.samples = samples;
            None
        }
    }
}

} // verus!
