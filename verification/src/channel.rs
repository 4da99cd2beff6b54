//! The event channel: an ordered, unbounded, single-producer queue.
//!
//! The poll loop sends events into the channel and the monitor's owner
//! drains them without blocking. Sending never blocks and fails only when
//! the consumer has let go of its end; a drain hands back every queued
//! event at once, oldest first, and leaves the channel empty, so a second
//! drain with no sends in between hands back nothing.
use vstd::prelude::*;

use crate::device::Event;

verus! {

/// The error a send reports when the consumer has dropped its end of the
/// channel: no consumer can ever observe further events.
#[derive(Clone, Copy, Debug, PartialEq, Eq, Structural)]
pub struct ChannelClosed;

/// An ordered, unbounded queue of events with one producer and one
/// consumer.
pub struct Channel {
    queue: Vec<Event>,
    connected: bool,
}

impl Channel {
    /// The events sent and not yet drained, oldest first.
    pub closed spec fn queued(&self) -> Seq<Event> {
        self.queue@
    }

    /// Whether the consumer still holds its end of the channel.
    pub closed spec fn is_connected(&self) -> bool {
        self.connected
    }

    /// A fresh channel: nothing queued, consumer attached.
    pub fn new() -> (c: Channel)
        ensures
            c.queued() == Seq::<Event>::empty(),
            c.is_connected(),
    {
        Channel { queue: Vec::new(), connected: true }
    }

    /// Queues one event. Never blocks; fails exactly when the consumer has
    /// dropped its end, and then leaves the queue as it was.
    pub fn send(&mut self, e: Event) -> (r: Result<(), ChannelClosed>)
        ensures
            final(self).is_connected() == old(self).is_connected(),
            old(self).is_connected() ==> r is Ok && final(self).queued() == old(
                self,
            ).queued().push(e),
            !old(self).is_connected() ==> r is Err && final(self).queued() == old(self).queued(),
    {
        if self.connected {
            self.queue.push(e);
            Ok(())
        } else {
            Err(ChannelClosed)
        }
    }

    /// Hands back every queued event, oldest first, and leaves the channel
    /// empty: a second drain with no send in between hands back nothing.
    pub fn drain(&mut self) -> (evs: Vec<Event>)
        ensures
            final(self).is_connected() == old(self).is_connected(),
            evs@ == old(self).queued(),
            final(self).queued() == Seq::<Event>::empty(),
    {
        let mut evs: Vec<Event> = Vec::new();
        let mut i: usize = 0;
        while i < self.queue.len()
            invariant
                0 <= i <= self.queue@.len(),
                evs@ == self.queue@.subrange(0, i as int),
            decreases self.queue@.len() - i,
        {
            evs.push(self.queue[i]);
            proof {
                assert(self.queue@.subrange(0, i + 1 as int) =~= self.queue@.subrange(
                    0,
                    i as int,
                ).push(self.queue@[i as int]));
            }
            i += 1;
        }
        proof {
            assert(self.queue@.subrange(0, self.queue@.len() as int) =~= self.queue@);
        }
        self.queue = Vec::new();
        evs
    }

    /// Marks the consumer's end as dropped: every later send fails.
    pub fn disconnect(&mut self)
        ensures
            !final(self).is_connected(),
            final(self).queued() == old(self).queued(),
    {
        self.connected = false;
    }
}

} // verus!
