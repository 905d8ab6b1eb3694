//! The sample channel: a bounded first-in first-out hand-off from the
//! sampler to the heart-rate engine.
//!
//! The engine's interval arithmetic assumes one sample per millisecond
//! with no gaps, so a full channel is never allowed to drop a sample
//! silently: enqueueing past capacity fails with [`ChannelOverflow`],
//! which the producer treats as fatal.

use vstd::prelude::*;

verus! {

/// The error of an enqueue onto a full channel. Fatal by design: the
/// producer fails fast rather than desynchronize the sample timeline.
#[derive(Clone, Copy, PartialEq, Eq, Structural, Debug)]
pub struct ChannelOverflow;

/// A bounded FIFO of raw samples, single producer, single consumer.
/// Its view is the queued samples, oldest first.
pub struct SampleChannel {
    buf: Vec<u32>,
    cap: usize,
}

impl View for SampleChannel {
    type V = Seq<u32>;

    closed spec fn view(&self) -> Seq<u32> {
        self.buf@
    }
}

impl SampleChannel {
    /// The fixed number of samples the channel can hold.
    pub closed spec fn spec_capacity(&self) -> int {
        self.cap as int
    }

    /// Create an empty channel holding at most `capacity` samples.
    pub fn new(capacity: usize) -> (c: SampleChannel)
        ensures
            c@ == Seq::<u32>::empty(),
            c.spec_capacity() == capacity,
    {
        SampleChannel { buf: Vec::new(), cap: capacity }
    }

    /// The fixed capacity; mutates nothing.
    pub fn capacity(&self) -> (r: usize)
        ensures
            r == self.spec_capacity(),
    {
        self.cap
    }

    /// Number of queued samples; mutates nothing.
    pub fn len(&self) -> (r: usize)
        ensures
            r == self@.len(),
    {
        self.buf.len()
    }

    /// Non-blocking enqueue: appends the sample if there is room, and
    /// fails — leaving the queue exactly as it was — if and only if
    /// the channel already holds `capacity` samples or more.
    pub fn try_enqueue(&mut self, sample: u32) -> (r: Result<(), ChannelOverflow>)
        ensures
            final(self).spec_capacity() == old(self).spec_capacity(),
            old(self)@.len() < old(self).spec_capacity() ==> r == Ok::<(), ChannelOverflow>(())
                && final(self)@ == old(self)@.push(sample),
            old(self)@.len() >= old(self).spec_capacity() ==> r == Err::<(), ChannelOverflow>(
                ChannelOverflow,
            ) && final(self)@ == old(self)@,
    {
        if self.buf.len() < self.cap {
            self.buf.push(sample);
            Ok(())
        } else {
            Err(ChannelOverflow)
        }
    }

    /// Consume the oldest queued sample, `None` iff the channel is
    /// empty. Samples come out in the exact order they went in.
    pub fn dequeue(&mut self) -> (r: Option<u32>)
        ensures
            final(self).spec_capacity() == old(self).spec_capacity(),
            old(self)@.len() == 0 ==> r == None::<u32> && final(self)@ == old(self)@,
            old(self)@.len() > 0 ==> r == Some(old(self)@[0]) && final(self)@ == old(self)@.drop_first(),
    {
        if self.buf.len() == 0 {
            None
        } else {
            let s = self.buf.remove(0);
            proof {
                assert(self.buf@ =~= old(self)@.drop_first());
            }
            Some(s)
        }
    }
}

} // verus!
