//! The bounded, ordered notification queue carrying enrichment events from
//! the background pipeline to the state owner.
//!
//! The queue keeps arrival order and never holds more events than its
//! capacity.  Publishing into a full queue does not go through: the event
//! comes back to the sender, who must wait until the receiver has drained
//! at least one message.

use vstd::prelude::*;
use crate::app::ChannelTypes;

verus! {

/// A bounded FIFO of [`ChannelTypes`] events.
#[derive(Debug)]
pub struct NotificationChannel {
    events: Vec<ChannelTypes>,
    capacity: usize,
}

impl NotificationChannel {
    /// The queued events, oldest first.
    pub closed spec fn contents(self) -> Seq<ChannelTypes> {
        self.events@
    }

    /// The fixed capacity the queue was created with.
    pub closed spec fn cap(self) -> nat {
        self.capacity as nat
    }

    /// The queue never exceeds its capacity, which is at least one.
    pub open spec fn wf(self) -> bool {
        self.contents().len() <= self.cap() && self.cap() >= 1
    }

    /// Creates an empty queue of the given capacity.
    pub fn with_capacity(capacity: usize) -> (c: NotificationChannel)
        requires
            capacity >= 1,
        ensures
            c.wf(),
            c.contents() =~= Seq::<ChannelTypes>::empty(),
            c.cap() == capacity,
    {
        NotificationChannel { events: Vec::new(), capacity }
    }

    /// How many events are queued.
    pub fn len(&self) -> (r: usize)
        ensures
            r == self.contents().len(),
    {
        self.events.len()
    }

    /// The capacity the queue was created with.
    pub fn capacity(&self) -> (r: usize)
        ensures
            r == self.cap(),
    {
        self.capacity
    }

    /// Appends an event when there is room.  A full queue hands the event
    /// back unchanged: the sender must wait for the receiver to drain a
    /// message before the publish can go through.
    pub fn try_publish(&mut self, event: ChannelTypes) -> (r: Result<(), ChannelTypes>)
        requires
            old(self).wf(),
        ensures
            final(self).wf(),
            final(self).cap() == old(self).cap(),
            old(self).contents().len() < old(self).cap() ==> r is Ok && final(self).contents()
                =~= old(self).contents().push(event),
            old(self).contents().len() == old(self).cap() ==> r == Err::<(), ChannelTypes>(event)
                && final(self).contents() =~= old(self).contents(),
    {
        if self.events.len() < self.capacity {
            self.events.push(event);
            Ok(())
        } else {
            Err(event)
        }
    }

    /// Hands out the oldest queued event, if any; the rest keep their
    /// order.
    pub fn take_next(&mut self) -> (r: Option<ChannelTypes>)
        requires
            old(self).wf(),
        ensures
            final(self).wf(),
            final(self).cap() == old(self).cap(),
            old(self).contents().len() == 0 ==> r is None && final(self).contents() =~= old(self).contents(),
            old(self).contents().len() > 0 ==> r == Some(old(self).contents()[0]) && final(self).contents() =~= old(self).contents().drop_first(),
    {
        if self.events.len() == 0 {
            None
        } else {
            let event = self.events.remove(0);
            Some(event)
        }
    }
}

} // verus!
