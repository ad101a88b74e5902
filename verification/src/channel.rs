//! The transfer channel between the capture callback and the transcription
//! loop, and the audio chunks that travel through it.
//!
//! The real pipeline decouples a hardware-scheduled producer from a
//! variable-latency consumer with an unbounded single-producer,
//! single-consumer queue: sends never block, receives wait for the next
//! chunk, and chunks come out in exactly the order they went in. This
//! module holds the verified FIFO model of that queue; the contracts below
//! are what the rest of the pipeline relies on, chiefly that no chunk is
//! dropped, duplicated, or reordered on the way to the consumer.

use vstd::prelude::*;

verus! {

/// One hardware callback's worth of mono audio, as 16-bit signed samples at
/// the stream's fixed rate. Immutable after creation; produced once by the
/// capture source and consumed exactly once by the transcription loop.
#[derive(Debug)]
pub struct AudioChunk {
    samples: Vec<i16>,
}

impl View for AudioChunk {
    type V = Seq<i16>;

    closed spec fn view(&self) -> Seq<i16> {
        self.samples@
    }
}

impl DeepView for AudioChunk {
    type V = Seq<i16>;

    open spec fn deep_view(&self) -> Seq<i16> {
        self.view()
    }
}

impl AudioChunk {
    /// Wraps one converted callback buffer.
    pub fn new(samples: Vec<i16>) -> (c: AudioChunk)
        ensures
            c@ == samples@,
    {
        AudioChunk { samples }
    }

    /// Number of samples in the chunk.
    pub fn len(&self) -> (n: usize)
        ensures
            n == self@.len(),
    {
        self.samples.len()
    }

    /// The chunk's samples.
    pub fn samples(&self) -> (s: &Vec<i16>)
        ensures
            s@ == self@,
    {
        &self.samples
    }
}

/// FIFO queue of audio chunks: the sole boundary between the real-time
/// producer and the non-real-time consumer. Unbounded, so a send never
/// waits; its view is the sequence of pending chunks, oldest first.
#[derive(Debug)]
pub struct ChunkQueue {
    items: Vec<AudioChunk>,
}

impl View for ChunkQueue {
    type V = Seq<Seq<i16>>;

    closed spec fn view(&self) -> Seq<Seq<i16>> {
        self.items.deep_view()
    }
}

impl ChunkQueue {
    /// An empty queue.
    pub fn new() -> (q: ChunkQueue)
        ensures
            q@ == Seq::<Seq<i16>>::empty(),
    {
        let q = ChunkQueue { items: Vec::new() };
        proof {
            assert(q@ =~= Seq::<Seq<i16>>::empty());
        }
        q
    }

    /// Number of pending chunks.
    pub fn len(&self) -> (n: usize)
        ensures
            n == self@.len(),
    {
        self.items.len()
    }

    /// Whether no chunk is pending.
    pub fn is_empty(&self) -> (b: bool)
        ensures
            b == (self@.len() == 0),
    {
        self.items.len() == 0
    }

    /// Producer side: appends a chunk behind all pending ones. Never drops,
    /// merges, or reorders chunks.
    pub fn send(&mut self, chunk: AudioChunk)
        ensures
            final(self)@ == old(self)@.push(chunk@),
    {
        let ghost c = chunk@;
        self.items.push(chunk);
        proof {
            assert(self@ =~= old(self)@.push(c));
        }
    }

    /// Consumer side: removes and returns the oldest pending chunk, or
    /// `None` when the queue is empty.
    pub fn recv(&mut self) -> (r: Option<AudioChunk>)
        ensures
            match r {
                Some(c) => old(self)@.len() > 0 && c@ == old(self)@[0] && final(self)@ == old(
                    self,
                )@.drop_first(),
                None => old(self)@.len() == 0 && final(self)@ == old(self)@,
            },
    {
        if self.items.len() == 0 {
            None
        } else {
            let c = self.items.remove(0);
            proof {
                assert(self@ =~= old(self)@.drop_first());
            }
            Some(c)
        }
    }

    /// Removes and returns every pending chunk, oldest first: the consumer
    /// receives exactly the sequence the producer sent, in send order.
    pub fn drain(&mut self) -> (out: Vec<AudioChunk>)
        ensures
            out.deep_view() == old(self)@,
            final(self)@ == Seq::<Seq<i16>>::empty(),
    {
        let mut out: Vec<AudioChunk> = Vec::new();
        core::mem::swap(&mut out, &mut self.items);
        proof {
            assert(out.deep_view() =~= old(self)@);
            assert(self@ =~= Seq::<Seq<i16>>::empty());
        }
        out
    }
}

/// FIFO delivery: a queue holding the chunk sequence `q` hands them back in
/// exactly that order. After the consumer's first `k` receives the queue
/// holds `q.skip(k)`, so the next receive returns `q[k]` and leaves
/// `q.skip(k + 1)`: the chunk sent `k`-th is the chunk received `k`-th,
/// never interleaved or reordered.
pub proof fn lemma_fifo_delivery(q: Seq<Seq<i16>>, k: int)
    requires
        0 <= k < q.len(),
    ensures
        q.skip(k)[0] == q[k],
        q.skip(k).drop_first() =~= q.skip(k + 1),
{
}

} // verus!
