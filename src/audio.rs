use std::collections::VecDeque;
use vstd::prelude::*;
use vstd::slice::SliceAdditionalExecFns;

verus! {

/// The last `cap` elements of `s`, or all of `s` when it is no longer.
pub open spec fn keep_last(s: Seq<i16>, cap: nat) -> Seq<i16> {
    if s.len() <= cap {
        s
    } else {
        s.subrange(s.len() - cap, s.len() as int)
    }
}

/// What a pop of `n` samples writes: the queued samples in order, then
/// silence once the queue runs dry.
pub open spec fn popped(queued: Seq<i16>, n: nat) -> Seq<i16> {
    Seq::new(n, |i: int| if i < queued.len() { queued[i] } else { 0i16 })
}

/// What stays queued after a pop of `n` samples.
pub open spec fn after_pop(queued: Seq<i16>, n: nat) -> Seq<i16> {
    if n >= queued.len() {
        Seq::empty()
    } else {
        queued.subrange(n as int, queued.len() as int)
    }
}

/// Overflow: pushing more than fits keeps exactly the most recent `cap`
/// samples, in their order.
pub proof fn law_overflow_keeps_newest(queued: Seq<i16>, pushed: Seq<i16>, cap: nat)
    requires
        queued.len() <= cap,
        queued.len() + pushed.len() > cap,
    ensures
        keep_last(queued + pushed, cap).len() == cap,
        forall|i: int|
            0 <= i < cap ==> #[trigger] keep_last(queued + pushed, cap)[i] == (queued + pushed)[(
            queued.len() + pushed.len()) - cap + i],
{
}

/// Underflow: popping more than is queued yields the queued samples, in
/// order, then zeros, and leaves the queue empty.
pub proof fn law_underflow_pads_with_silence(queued: Seq<i16>, n: nat)
    requires
        n > queued.len(),
    ensures
        popped(queued, n).subrange(0, queued.len() as int) == queued,
        forall|i: int| queued.len() <= i < n ==> #[trigger] popped(queued, n)[i] == 0,
        after_pop(queued, n).len() == 0,
{
    assert(popped(queued, n).subrange(0, queued.len() as int) =~= queued);
}

/// Within capacity nothing is lost: pushing, then popping everything queued,
/// yields what was queued followed by what was pushed, and empties the queue.
pub proof fn law_push_pop_round_trip(queued: Seq<i16>, pushed: Seq<i16>, cap: nat)
    requires
        queued.len() + pushed.len() <= cap,
    ensures
        popped(keep_last(queued + pushed, cap), queued.len() + pushed.len()) == queued + pushed,
        after_pop(keep_last(queued + pushed, cap), queued.len() + pushed.len()).len() == 0,
{
    assert(popped(keep_last(queued + pushed, cap), queued.len() + pushed.len()) =~= queued
        + pushed);
}

/// A fixed-capacity queue of interleaved 16-bit samples. When full, the
/// oldest sample is dropped to admit a new one.
#[derive(Debug)]
pub struct AudioRingBuffer {
    inner: VecDeque<i16>,
    capacity: usize,
}

impl View for AudioRingBuffer {
    type V = Seq<i16>;

    /// The queued samples, oldest first.
    closed spec fn view(&self) -> Seq<i16> {
        self.inner@
    }
}

impl AudioRingBuffer {
    pub closed spec fn spec_capacity(&self) -> nat {
        self.capacity as nat
    }

    /// Well-formed: no more samples are queued than the capacity allows.
    pub closed spec fn wf(&self) -> bool {
        self.inner@.len() <= self.capacity
    }

    pub fn new(capacity: usize) -> (r: AudioRingBuffer)
        ensures
            r.wf(),
            r@ == Seq::<i16>::empty(),
            r.spec_capacity() == capacity,
    {
        AudioRingBuffer { inner: VecDeque::with_capacity(capacity), capacity }
    }

    pub fn capacity(&self) -> (r: usize)
        ensures
            r == self.spec_capacity(),
    {
        self.capacity
    }

    pub fn len(&self) -> (r: usize)
        ensures
            r == self@.len(),
    {
        self.inner.len()
    }

    /// Appends `samples` in order, dropping the oldest queued samples so that
    /// at most `capacity` remain.
    pub fn push_samples(&mut self, samples: &[i16])
        requires
            old(self).wf(),
        ensures
            final(self).wf(),
            final(self)@.len() <= final(self).spec_capacity(),
            final(self)@ == keep_last(old(self)@ + samples@, old(self).spec_capacity()),
            final(self).spec_capacity() == old(self).spec_capacity(),
    {
        let ghost start = self.inner@;
        let cap = self.capacity;
        let mut i: usize = 0;
        while i < samples.len()
            invariant
                cap == self.capacity,
                cap == old(self).spec_capacity(),
                start == old(self)@,
                start.len() <= cap,
                self.inner@.len() <= cap,
                i <= samples@.len(),
                self.inner@ == keep_last(start + samples@.subrange(0, i as int), cap as nat),
            decreases samples@.len() - i,
        {
            let ghost before = start + samples@.subrange(0, i as int);
            let sample = samples[i];
            if cap > 0 {
                if self.inner.len() == cap {
                    self.inner.pop_front();
                }
                self.inner.push_back(sample);
            }
            proof {
                let after = start + samples@.subrange(0, i + 1);
                assert(after =~= before.push(sample));
                assert(self.inner@ =~= keep_last(after, cap as nat));
            }
            i = i + 1;
        }
        proof {
            assert(samples@.subrange(0, samples@.len() as int) =~= samples@);
        }
    }

    /// Fills `out` with the oldest queued samples, in order, and removes them;
    /// positions past the queued samples get silence (zero).
    pub fn pop_samples(&mut self, out: &mut [i16])
        requires
            old(self).wf(),
        ensures
            final(self).wf(),
            final(out)@ == popped(old(self)@, old(out)@.len()),
            final(self)@ == after_pop(old(self)@, old(out)@.len()),
            final(self).spec_capacity() == old(self).spec_capacity(),
    {
        let ghost start = self.inner@;
        let n = out.len();
        let mut i: usize = 0;
        while i < n
            invariant
                n == out@.len(),
                n == old(out)@.len(),
                start == old(self)@,
                self.capacity == old(self).spec_capacity(),
                start.len() <= self.capacity,
                i <= n,
                self.inner@ == after_pop(start, i as nat),
                self.inner@.len() <= self.capacity,
                forall|j: int| 0 <= j < i ==> out@[j] == popped(start, n as nat)[j],
            decreases n - i,
        {
            let sample = match self.inner.pop_front() {
                Some(s) => s,
                None => 0i16,
            };
            out.set(i, sample);
            proof {
                assert(self.inner@ =~= after_pop(start, (i + 1) as nat));
            }
            i = i + 1;
        }
        proof {
            assert(out@ =~= popped(start, n as nat));
        }
    }
}

} // verus!
