//! The handover: the bounded in-process queue between a producer thread
//! and the task that consumes its elements. A full queue refuses the
//! element, which is the engine's only backpressure; order is first in,
//! first out.
use vstd::prelude::*;
use crate::element::Element;

verus! {

/// A bounded first-in-first-out queue of elements.
#[derive(Debug)]
pub struct Handover {
    pub queue: Vec<Element>,
    pub capacity: usize,
}

impl Handover {
    pub open spec fn wf(self) -> bool {
        self.capacity >= 1 && self.queue@.len() <= self.capacity
    }

    pub fn new(capacity: usize) -> (r: Handover)
        requires
            capacity >= 1,
        ensures
            r.wf(),
            r.capacity == capacity,
            r.queue@.len() == 0,
    {
        Handover { queue: Vec::new(), capacity }
    }

    pub fn len(&self) -> (r: usize)
        ensures
            r == self.queue@.len(),
    {
        self.queue.len()
    }

    /// Offers one element: appended when there is room, handed back when
    /// the queue is full so the producer blocks and retries.
    pub fn produce(&mut self, element: Element) -> (r: Result<(), Element>)
        requires
            old(self).wf(),
        ensures
            final(self).wf(),
            final(self).capacity == old(self).capacity,
            old(self).queue@.len() < old(self).capacity ==> r is Ok && final(self).queue@ == old(self).queue@.push(element),
            old(self).queue@.len() == old(self).capacity ==> r == Err::<(), Element>(element)
                && final(self).queue@ == old(self).queue@,
    {
        if self.queue.len() < self.capacity {
            self.queue.push(element);
            Ok(())
        } else {
            Err(element)
        }
    }

    /// Takes the oldest element, or nothing while the queue is empty.
    pub fn poll_next(&mut self) -> (r: Option<Element>)
        requires
            old(self).wf(),
        ensures
            final(self).wf(),
            final(self).capacity == old(self).capacity,
            old(self).queue@.len() == 0 ==> r is None && final(self).queue@ == old(self).queue@,
            old(self).queue@.len() > 0 ==> r == Some(old(self).queue@[0]) && final(self).queue@
                == old(self).queue@.drop_first(),
    {
        if self.queue.len() > 0 {
            let element = self.queue.remove(0);
            proof {
                assert(self.queue@ =~= old(self).queue@.drop_first());
            }
            Some(element)
        } else {
            None
        }
    }
}

} // verus!
