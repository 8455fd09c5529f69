//! The bounded buffer of samples that wait for the next flush.

use crate::metrics::DiskMetric;
use std::collections::VecDeque;
use vstd::prelude::*;

verus! {

/// The newest `capacity` of `items`; all of them where there are no more.
pub open spec fn newest<T>(items: Seq<T>, capacity: int) -> Seq<T>
    recommends
        capacity >= 0,
{
    if items.len() > capacity {
        items.subrange(items.len() - capacity, items.len() as int)
    } else {
        items
    }
}

/// What a buffer of `capacity` that holds `held` keeps when `pushed` arrive:
/// the arrivals go behind what is held, and the oldest items leave until no
/// more than `capacity` are left.
pub open spec fn retained<T>(held: Seq<T>, pushed: Seq<T>, capacity: int) -> Seq<T> {
    newest(held + pushed, capacity)
}

/// What draining a buffer that holds `held` gives: the items that come out,
/// and the items that stay.
pub open spec fn drained<T>(held: Seq<T>) -> (Seq<T>, Seq<T>) {
    (held, Seq::empty())
}

/// A push that does not fit leaves exactly `capacity` items: the last
/// `capacity` of what was held followed by what arrived, in arrival order.
pub proof fn lemma_overflow_keeps_newest<T>(held: Seq<T>, pushed: Seq<T>, capacity: int)
    requires
        capacity >= 0,
        held.len() + pushed.len() > capacity,
    ensures
        retained(held, pushed, capacity).len() == capacity,
        forall|i: int|
            0 <= i < capacity ==> retained(held, pushed, capacity)[i] == (held + pushed)[held.len()
                + pushed.len() - capacity + i],
{
}

/// A push that fits loses nothing.
pub proof fn lemma_fitting_push_keeps_all<T>(held: Seq<T>, pushed: Seq<T>, capacity: int)
    requires
        held.len() + pushed.len() <= capacity,
    ensures
        retained(held, pushed, capacity) == held + pushed,
{
}

/// Draining twice in a row gives everything the first time and nothing the
/// second.
pub proof fn lemma_drain_twice<T>(held: Seq<T>)
    ensures
        drained(held).0 == held,
        drained(drained(held).1).0 == Seq::<T>::empty(),
        drained(drained(held).1).1 == Seq::<T>::empty(),
{
}

/// Samples in arrival order, never more than a fixed number of them.
pub struct MetricBuffer {
    items: VecDeque<DiskMetric>,
    capacity: usize,
}

impl View for MetricBuffer {
    type V = Seq<DiskMetric>;

    closed spec fn view(&self) -> Seq<DiskMetric> {
        self.items@
    }
}

impl MetricBuffer {
    #[verifier::type_invariant]
    spec fn bounded(self) -> bool {
        self.items@.len() <= self.capacity
    }

    /// The most samples that the buffer holds.
    pub closed spec fn capacity(&self) -> usize {
        self.capacity
    }

    /// An empty buffer that holds up to `capacity` samples.
    pub fn new(capacity: usize) -> (buffer: Self)
        ensures
            buffer@ == Seq::<DiskMetric>::empty(),
            buffer.capacity() == capacity,
    {
        MetricBuffer { items: VecDeque::new(), capacity }
    }

    /// The number of samples held, which never exceeds the capacity.
    pub fn len(&self) -> (n: usize)
        ensures
            n == self@.len(),
            n <= self.capacity(),
    {
        proof {
            use_type_invariant(self);
        }
        self.items.len()
    }

    pub fn is_empty(&self) -> (empty: bool)
        ensures
            empty == (self@.len() == 0),
    {
        self.items.len() == 0
    }

    /// Appends `samples` in order, then drops from the front until no more
    /// than the capacity is held.  What was held before was no more than the
    /// capacity either, so that a push of nothing changes nothing.
    pub fn push(&mut self, samples: Vec<DiskMetric>)
        ensures
            final(self)@ == retained(old(self)@, samples@, old(self).capacity() as int),
            final(self).capacity() == old(self).capacity(),
            final(self)@.len() <= final(self).capacity(),
            old(self)@.len() <= old(self).capacity(),
            samples@.len() == 0 ==> final(self)@ == old(self)@,
    {
        proof {
            use_type_invariant(&*self);
        }
        let ghost held = self.items@;
        let capacity: usize = self.capacity;
        let mut items: VecDeque<DiskMetric> = VecDeque::new();
        std::mem::swap(&mut self.items, &mut items);
        for sample in it: samples
            invariant
                it.seq() == samples@,
                items@ == held + samples@.take(it.index() as int),
        {
            assert((held + samples@.take(it.index() as int)).push(sample) == held
                + samples@.take(it.index() + 1));
            items.push_back(sample);
        }
        let ghost all = held + samples@;
        while items.len() > capacity
            invariant
                items@.len() <= all.len(),
                all.len() > capacity ==> items@.len() >= capacity,
                all.len() <= capacity ==> items@.len() == all.len(),
                items@ == all.subrange(all.len() - items@.len(), all.len() as int),
            decreases items@.len(),
        {
            items.pop_front();
        }
        std::mem::swap(&mut self.items, &mut items);
    }

    /// Takes every sample out, oldest first, and leaves the buffer empty.
    pub fn drain_all(&mut self) -> (samples: Vec<DiskMetric>)
        ensures
            (samples@, final(self)@) == drained(old(self)@),
            final(self).capacity() == old(self).capacity(),
    {
        let ghost held = self.items@;
        let mut items: VecDeque<DiskMetric> = VecDeque::new();
        std::mem::swap(&mut self.items, &mut items);
        let mut samples: Vec<DiskMetric> = Vec::new();
        loop
            invariant
                samples@ + items@ == held,
            ensures
                items@.len() == 0,
                samples@ + items@ == held,
            decreases items@.len(),
        {
            match items.pop_front() {
                Some(sample) => {
                    assert(samples@.push(sample) + items@ == held);
                    samples.push(sample);
                },
                None => {
                    break;
                },
            }
        }
        samples
    }
}

} // verus!
