//! The shared sample queue: a FIFO of raw signed 16-bit samples that the
//! decode path fills ahead of playback and the real-time output callback
//! drains one sample per output slot, substituting silence on underrun.

use vstd::prelude::*;

verus! {

/// Abstract state of a [`SampleBuffer`]: the samples still queued for
/// delivery, oldest first, and the count of samples delivered so far.
#[verifier::ext_equal]
pub ghost struct BufferView {
    pub remaining: Seq<i16>,
    pub consumed: int,
}

/// The sample one pop delivers out of queue contents `r`: the front sample,
/// or the silence value 0 once the queue is exhausted.
pub open spec fn pop_value(r: Seq<i16>) -> i16 {
    if r.len() > 0 {
        r[0]
    } else {
        0i16
    }
}

/// Queue contents after one pop: the front sample is gone; an exhausted
/// queue stays exhausted.
pub open spec fn popped_rest(r: Seq<i16>) -> Seq<i16> {
    if r.len() > 0 {
        r.skip(1)
    } else {
        r
    }
}

/// Queue contents after `k` pops.
pub open spec fn consumed_rest(r: Seq<i16>, k: nat) -> Seq<i16>
    decreases k,
{
    if k == 0 {
        r
    } else {
        popped_rest(consumed_rest(r, (k - 1) as nat))
    }
}

/// The delivered-sample counter after `k` more pops: it advances by one per
/// pop and saturates at the counter type's maximum instead of overflowing.
pub open spec fn bumped(c: int, k: int) -> int {
    if c + k <= u64::MAX {
        c + k
    } else {
        u64::MAX as int
    }
}

/// The `n` samples one callback receives out of queue contents `r`: the
/// queued samples in order, then silence once the queue is exhausted.
pub open spec fn delivered_prefix(r: Seq<i16>, n: nat) -> Seq<i16> {
    Seq::new(n, |i: int| if i < r.len() { r[i] } else { 0i16 })
}

/// After `k` pops the queue holds the samples from index `k` on; past
/// exhaustion it is empty.
pub proof fn lemma_consumed_rest_is_skip(r: Seq<i16>, k: nat)
    ensures
        consumed_rest(r, k) == if k <= r.len() {
            r.skip(k as int)
        } else {
            Seq::<i16>::empty()
        },
    decreases k,
{
    if k == 0 {
        assert(r.skip(0) =~= r);
    } else {
        lemma_consumed_rest_is_skip(r, (k - 1) as nat);
        if k - 1 < r.len() {
            assert(r.skip(k - 1).skip(1) =~= r.skip(k as int));
        } else {
            assert(consumed_rest(r, (k - 1) as nat).len() == 0);
        }
    }
}

/// Underrun safety: once the queue is exhausted, every further pop delivers
/// exactly the silence value 0 and leaves the queue exhausted, however many
/// pops follow.
pub proof fn underrun_yields_silence(r: Seq<i16>, k: nat)
    requires
        r.len() == 0,
    ensures
        consumed_rest(r, k) == r,
        pop_value(consumed_rest(r, k)) == 0,
    decreases k,
{
    if k > 0 {
        underrun_yields_silence(r, (k - 1) as nat);
    }
}

/// Bounded FIFO of raw 16-bit samples shared between the decode path and the
/// output callback, with a monotonically increasing delivered-sample counter.
/// Delivered samples are dropped lazily: `pos` marks the queue's front inside
/// the backing vector, so a pop neither shifts elements nor allocates.
pub struct SampleBuffer {
    samples: Vec<i16>,
    pos: usize,
    consumed: u64,
}

impl View for SampleBuffer {
    type V = BufferView;

    closed spec fn view(&self) -> BufferView {
        BufferView {
            remaining: self.samples@.skip(self.pos as int),
            consumed: self.consumed as int,
        }
    }
}

impl SampleBuffer {
    /// The queue's front never lies past the end of the backing vector.
    pub closed spec fn wf(self) -> bool {
        self.pos <= self.samples.len()
    }

    /// An empty queue with the counter at zero.
    pub fn new() -> (b: Self)
        ensures
            b.wf(),
            b@.remaining == Seq::<i16>::empty(),
            b@.consumed == 0,
    {
        let b = SampleBuffer { samples: Vec::new(), pos: 0, consumed: 0 };
        proof {
            assert(b.samples@.skip(0) =~= Seq::<i16>::empty());
        }
        b
    }

    /// Number of samples still queued for delivery.
    pub fn len(&self) -> (n: usize)
        requires
            self.wf(),
        ensures
            n == self@.remaining.len(),
    {
        self.samples.len() - self.pos
    }

    /// Whether no sample is queued.
    pub fn is_empty(&self) -> (b: bool)
        requires
            self.wf(),
        ensures
            b == (self@.remaining.len() == 0),
    {
        self.len() == 0
    }

    /// Count of samples delivered so far.
    pub fn consumed_count(&self) -> (c: u64)
        ensures
            c == self@.consumed,
    {
        self.consumed
    }

    /// Empties the queue and resets the delivered-sample counter. Callers
    /// must not run this while a live output stream is draining the queue,
    /// except under the same lock the callback holds.
    pub fn clear(&mut self)
        ensures
            final(self).wf(),
            final(self)@.remaining == Seq::<i16>::empty(),
            final(self)@.consumed == 0,
    {
        self.samples = Vec::new();
        self.pos = 0;
        self.consumed = 0;
        proof {
            assert(self.samples@.skip(0) =~= Seq::<i16>::empty());
        }
    }

    /// Appends a decoded track's samples, in order, behind whatever is still
    /// queued; the delivered-sample counter is untouched. Callers replacing
    /// the contents clear first.
    pub fn load(&mut self, samples: Vec<i16>)
        requires
            old(self).wf(),
        ensures
            final(self).wf(),
            final(self)@.remaining == old(self)@.remaining + samples@,
            final(self)@.consumed == old(self)@.consumed,
    {
        let mut incoming = samples;
        self.samples.append(&mut incoming);
        proof {
            let prior = old(self).samples@.skip(old(self).pos as int);
            assert(self.samples@.skip(self.pos as int) =~= prior + samples@);
        }
    }

    /// Removes and returns the earliest queued sample, or returns the silence
    /// value 0 when the queue is exhausted; the delivered-sample counter
    /// always advances (saturating at its maximum). Never blocks, never
    /// fails, never allocates: this is the one operation the real-time
    /// callback invokes.
    pub fn pop_front_or_silence(&mut self) -> (r: i16)
        requires
            old(self).wf(),
        ensures
            final(self).wf(),
            r == pop_value(old(self)@.remaining),
            final(self)@.remaining == popped_rest(old(self)@.remaining),
            final(self)@.consumed == bumped(old(self)@.consumed, 1),
    {
        let r: i16 = if self.pos < self.samples.len() {
            let v = self.samples[self.pos];
            self.pos = self.pos + 1;
            v
        } else {
            0
        };
        if self.consumed < u64::MAX {
            self.consumed = self.consumed + 1;
        }
        proof {
            assert(self.samples@.skip(self.pos as int) =~= popped_rest(
                old(self).samples@.skip(old(self).pos as int),
            ));
        }
        r
    }

    /// Pops `out_len` samples for one output callback period: the queued
    /// samples in order, then silence once the queue runs out.
    pub fn fill_frames(&mut self, out_len: usize) -> (out: Vec<i16>)
        requires
            old(self).wf(),
        ensures
            final(self).wf(),
            out@ == delivered_prefix(old(self)@.remaining, out_len as nat),
            final(self)@.remaining == consumed_rest(old(self)@.remaining, out_len as nat),
            final(self)@.consumed == bumped(old(self)@.consumed, out_len as int),
    {
        let ghost orig: BufferView = self@;
        let mut out: Vec<i16> = Vec::new();
        let mut i: usize = 0;
        while i < out_len
            invariant
                i <= out_len,
                self.wf(),
                orig == old(self)@,
                out@.len() == i,
                out@ == delivered_prefix(orig.remaining, i as nat),
                self@.remaining == consumed_rest(orig.remaining, i as nat),
                self@.consumed == bumped(orig.consumed, i as int),
            decreases out_len - i,
        {
            proof {
                lemma_consumed_rest_is_skip(orig.remaining, i as nat);
            }
            let v = self.pop_front_or_silence();
            out.push(v);
            proof {
                assert(consumed_rest(orig.remaining, (i + 1) as nat) == popped_rest(
                    consumed_rest(orig.remaining, i as nat),
                ));
                assert(pop_value(consumed_rest(orig.remaining, i as nat)) == if i
                    < orig.remaining.len() {
                    orig.remaining[i as int]
                } else {
                    0i16
                });
                assert(out@ =~= delivered_prefix(orig.remaining, (i + 1) as nat));
            }
            i = i + 1;
        }
        out
    }
}

} // verus!
