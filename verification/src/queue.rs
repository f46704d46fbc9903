//! The bounded pipeline queue: a fixed-capacity FIFO between the driver and
//! the completion consumer.
//!
//! Submitting to a full queue blocks the driver in the real system; the
//! model expresses the block as the precondition of `submit`, so a verified
//! caller must first make room (or never fill the queue).  Closing the queue
//! stands for the driver's end-of-work marker: a closed queue accepts no
//! further tasks, and a consumer that drains it empty knows the run is over.

use vstd::prelude::*;
use crate::errors::PipelineError;

verus! {

/// A fixed-capacity FIFO with single-producer submission and
/// single-consumer claiming.
pub struct BoundedQueue<T> {
    items: Vec<T>,
    capacity: usize,
    closed: bool,
}

impl<T> BoundedQueue<T> {
    /// The queued tasks, oldest first.
    pub closed spec fn view(self) -> Seq<T> {
        self.items@
    }

    /// The fixed capacity the queue was created with.
    pub closed spec fn spec_capacity(self) -> int {
        self.capacity as int
    }

    /// True once the producer has marked the end of work.
    pub closed spec fn is_closed(self) -> bool {
        self.closed
    }

    /// Well-formedness: never more tasks than the capacity, which is at
    /// least 2.
    pub open spec fn wf(self) -> bool {
        &&& self.view().len() <= self.spec_capacity()
        &&& self.spec_capacity() >= 2
    }

    /// Creates an empty, open queue of the given capacity.
    pub fn new(capacity: usize) -> (q: BoundedQueue<T>)
        requires
            capacity >= 2,
        ensures
            q.wf(),
            q.view() =~= Seq::<T>::empty(),
            q.spec_capacity() == capacity,
            !q.is_closed(),
    {
        BoundedQueue { items: Vec::new(), capacity, closed: false }
    }

    /// Number of tasks submitted but not yet claimed.
    pub fn len(&self) -> (n: usize)
        ensures
            n == self.view().len(),
    {
        self.items.len()
    }

    /// True when the queue holds no task.
    pub fn is_empty(&self) -> (r: bool)
        ensures
            r == (self.view().len() == 0),
    {
        self.items.len() == 0
    }

    /// True when a further submission would block.
    pub fn is_full(&self) -> (r: bool)
        requires
            self.wf(),
        ensures
            r == (self.view().len() == self.spec_capacity()),
    {
        self.items.len() == self.capacity
    }

    /// True once the producer has marked the end of work.
    pub fn closed(&self) -> (r: bool)
        ensures
            r == self.is_closed(),
    {
        self.closed
    }

    /// Submits a task at the back of the queue.  The precondition models
    /// the producer blocking until the queue has room; submitting to a
    /// closed queue is refused with `QueueClosed`.
    pub fn submit(&mut self, item: T) -> (r: Result<(), PipelineError>)
        requires
            old(self).wf(),
            old(self).view().len() < old(self).spec_capacity(),
        ensures
            final(self).wf(),
            final(self).spec_capacity() == old(self).spec_capacity(),
            final(self).is_closed() == old(self).is_closed(),
            old(self).is_closed() ==> {
                &&& r == Err::<(), PipelineError>(PipelineError::QueueClosed)
                &&& final(self).view() == old(self).view()
            },
            !old(self).is_closed() ==> {
                &&& r == Ok::<(), PipelineError>(())
                &&& final(self).view() == old(self).view().push(item)
            },
    {
        if self.closed {
            Err(PipelineError::QueueClosed)
        } else {
            self.items.push(item);
            Ok(())
        }
    }

    /// Claims the oldest queued task, or returns `None` when the queue is
    /// empty.  The consumer treats an empty, closed queue as the end of
    /// work.
    pub fn claim(&mut self) -> (r: Option<T>)
        requires
            old(self).wf(),
        ensures
            final(self).wf(),
            final(self).spec_capacity() == old(self).spec_capacity(),
            final(self).is_closed() == old(self).is_closed(),
            old(self).view().len() == 0 ==> {
                &&& r is None
                &&& final(self).view() == old(self).view()
            },
            old(self).view().len() > 0 ==> {
                &&& r == Some(old(self).view()[0])
                &&& final(self).view() == old(self).view().subrange(
                    1,
                    old(self).view().len() as int,
                )
            },
    {
        if self.items.len() == 0 {
            None
        } else {
            let item = self.items.remove(0);
            proof {
                assert(self.items@ =~= old(self).items@.subrange(1, old(self).items@.len() as int));
            }
            Some(item)
        }
    }

    /// Marks the end of work: the producer will submit nothing further.
    pub fn close(&mut self)
        requires
            old(self).wf(),
        ensures
            final(self).wf(),
            final(self).spec_capacity() == old(self).spec_capacity(),
            final(self).view() == old(self).view(),
            final(self).is_closed(),
    {
        self.closed = true;
    }
}

} // verus!
