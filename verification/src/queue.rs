//! The bounded, strictly FIFO job queue carrying accepted events from the
//! ingestion endpoint to the single upload worker. It holds no durable
//! state: events lost with the process are recovered from the pending-job
//! list via manual retry.

use crate::recorder::RecorderEvent;
use vstd::prelude::*;

verus! {

/// Bounded FIFO queue of recorder events.
pub struct JobQueue {
    items: Vec<RecorderEvent>,
    capacity: usize,
}

impl JobQueue {
    /// Queued events, front first.
    pub closed spec fn items(&self) -> Seq<RecorderEvent> {
        self.items@
    }

    /// The fixed capacity the queue was created with.
    pub closed spec fn cap(&self) -> int {
        self.capacity as int
    }

    /// The queue never holds more than its capacity.
    pub open spec fn wf(&self) -> bool {
        self.items().len() <= self.cap()
    }

    /// An empty queue of the given capacity.
    pub fn new(capacity: usize) -> (r: JobQueue)
        requires
            capacity >= 1,
        ensures
            r.wf(),
            r.items().len() == 0,
            r.cap() == capacity,
    {
        JobQueue { items: Vec::new(), capacity }
    }

    /// Number of queued events.
    pub fn len(&self) -> (r: usize)
        ensures
            r == self.items().len(),
    {
        self.items.len()
    }

    /// Appends an event at the back; a full queue refuses it unchanged, and
    /// the caller decides whether to wait or to drop.
    pub fn push(&mut self, event: RecorderEvent) -> (r: Result<(), RecorderEvent>)
        requires
            old(self).wf(),
        ensures
            final(self).wf(),
            final(self).cap() == old(self).cap(),
            old(self).items().len() == old(self).cap() ==> (r matches Err(e) && e == event) && final(self).items() == old(self).items(),
            old(self).items().len() < old(self).cap() ==> r is Ok && final(self).items() == old(self).items().push(event),
    {
        if self.items.len() < self.capacity {
            self.items.push(event);
            Ok(())
        } else {
            Err(event)
        }
    }

    /// Removes and returns the front event; `None` exactly when empty.
    pub fn pop(&mut self) -> (r: Option<RecorderEvent>)
        requires
            old(self).wf(),
        ensures
            final(self).wf(),
            final(self).cap() == old(self).cap(),
            old(self).items().len() == 0 ==> r is None && final(self).items() == old(self).items(),
            old(self).items().len() > 0 ==> r == Some(old(self).items()[0]) && final(self).items()
                == old(self).items().skip(1),
    {
        if self.items.len() == 0 {
            None
        } else {
            let e = self.items.remove(0);
            proof {
                assert(self.items() =~= old(self).items().skip(1));
            }
            Some(e)
        }
    }
}

} // verus!
