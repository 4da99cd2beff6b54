//! The device-presence monitor: the poll-and-diff loop's whole behaviour.
//!
//! The monitor is driven by snapshots. Whoever runs it — a background
//! thread holding the platform's enumeration session, or a test feeding
//! scripted snapshots — hands each snapshot to [`Monitor::poll`]; the
//! monitor diffs it against the devices it knew after the previous cycle,
//! queues a `Remove` event for every device that is gone and then an `Add`
//! event for every device that is new, and remembers the snapshot as the
//! new known set, replaced wholesale. Cancellation is cooperative: once
//! [`Monitor::stop`] has run, a poll changes nothing and no event is ever
//! queued again. A poll that must emit events while the consumer has
//! dropped its end of the channel fails, and that failure stops the
//! monitor for good.
use vstd::prelude::*;

use crate::channel::Channel;
use crate::channel::ChannelClosed;
use crate::device::DeviceId;
use crate::device::Event;
use crate::diff::cycle_diff;
use crate::diff::cycle_events;

verus! {

/// How long the loop's host should wait between two poll cycles, in
/// milliseconds: the bound within which cancellation is noticed.
pub const POLL_INTERVAL_MS: u64 = 100;

/// The loop's lifecycle: it runs until it is canceled, told that its host
/// was stopped from outside, or unable to deliver an event, and `Stopped`
/// is terminal.
#[derive(Clone, Copy, Debug, PartialEq, Eq, Structural)]
pub enum Phase {
    Running,
    Stopped,
}

/// The monitor's whole state: the devices observed as present after the
/// last completed cycle, the loop's phase, and the event channel.
pub struct Monitor {
    known: Vec<DeviceId>,
    phase: Phase,
    channel: Channel,
}

impl Monitor {
    /// Validity: the known set holds each device at most once, as a set
    /// must. Every constructor establishes it and every method keeps it.
    pub closed spec fn inv(&self) -> bool {
        self.known@.no_duplicates()
    }

    /// The devices observed as present after the last completed cycle.
    pub closed spec fn known_ids(&self) -> Seq<DeviceId> {
        self.known@
    }

    /// The events queued and not yet drained, oldest first.
    pub closed spec fn pending(&self) -> Seq<Event> {
        self.channel.queued()
    }

    /// Whether the loop is still in its `Running` phase.
    pub closed spec fn running(&self) -> bool {
        self.phase == Phase::Running
    }

    /// Whether the consumer still holds its end of the channel.
    pub closed spec fn connected(&self) -> bool {
        self.channel.is_connected()
    }

    /// A fresh monitor: no device known, nothing queued, loop running.
    pub fn new() -> (m: Monitor)
        ensures
            m.inv(),
            m.running(),
            m.connected(),
            m.known_ids() == Seq::<DeviceId>::empty(),
            m.pending() == Seq::<Event>::empty(),
    {
        Monitor { known: Vec::new(), phase: Phase::Running, channel: Channel::new() }
    }

    /// One poll cycle over a snapshot of the devices present now.
    ///
    /// While running and with the consumer attached, the cycle queues
    /// exactly the events of the difference — removals first, additions
    /// after — and replaces the known set with the snapshot. Once stopped,
    /// a cycle changes nothing. A cycle that has events to emit but no
    /// consumer left fails, stops the loop, and leaves the known set and
    /// the queue as they were; one with nothing to emit notices nothing
    /// and goes on.
    pub fn poll(&mut self, current: Vec<DeviceId>) -> (r: Result<(), ChannelClosed>)
        requires
            old(self).inv(),
            current@.no_duplicates(),
        ensures
            final(self).inv(),
            final(self).connected() == old(self).connected(),
            !old(self).running() ==> r is Ok && !final(self).running() && final(self).known_ids()
                == old(self).known_ids() && final(self).pending() == old(self).pending(),
            old(self).running() && old(self).connected() ==> r is Ok && final(self).running()
                && final(self).known_ids() == current@ && final(self).pending() == old(
                self,
            ).pending() + cycle_events(old(self).known_ids(), current@),
            old(self).running() && !old(self).connected() && cycle_events(
                old(self).known_ids(),
                current@,
            ).len() == 0 ==> r is Ok && final(self).running() && final(self).known_ids()
                == current@ && final(self).pending() == old(self).pending(),
            old(self).running() && !old(self).connected() && cycle_events(
                old(self).known_ids(),
                current@,
            ).len() != 0 ==> r is Err && !final(self).running() && final(self).known_ids() == old(
                self,
            ).known_ids() && final(self).pending() == old(self).pending(),
    {
        match self.phase {
            Phase::Stopped => Ok(()),
            Phase::Running => {
                let evs = cycle_diff(&self.known, &current);
                let mut i: usize = 0;
                while i < evs.len()
                    invariant
                        0 <= i <= evs@.len(),
                        evs@ == cycle_events(old(self).known@, current@),
                        old(self).phase == Phase::Running,
                        old(self).known@.no_duplicates(),
                        self.phase == Phase::Running,
                        self.known@ == old(self).known@,
                        self.channel.is_connected() == old(self).channel.is_connected(),
                        old(self).channel.is_connected() ==> self.channel.queued() == old(
                            self,
                        ).channel.queued() + evs@.subrange(0, i as int),
                        !old(self).channel.is_connected() ==> i == 0 && self.channel.queued()
                            == old(self).channel.queued(),
                    decreases evs@.len() - i,
                {
                    match self.channel.send(evs[i]) {
                        Ok(_) => {}
                        Err(e) => {
                            self.phase = Phase::Stopped;
                            return Err(e);
                        }
                    }
                    proof {
                        assert(evs@.subrange(0, i as int + 1) =~= evs@.subrange(0, i as int).push(
                            evs@[i as int],
                        ));
                    }
                    i += 1;
                }
                proof {
                    assert(evs@.subrange(0, evs@.len() as int) =~= evs@);
                }
                self.known = current;
                Ok(())
            }
        }
    }

    /// Drains the channel without blocking: every queued event, oldest
    /// first, leaving the queue empty — a second drain with no cycle in
    /// between hands back nothing.
    pub fn events(&mut self) -> (evs: Vec<Event>)
        ensures
            final(self).inv() == old(self).inv(),
            evs@ == old(self).pending(),
            final(self).pending() == Seq::<Event>::empty(),
            final(self).known_ids() == old(self).known_ids(),
            final(self).running() == old(self).running(),
            final(self).connected() == old(self).connected(),
    {
        self.channel.drain()
    }

    /// Whether the loop still runs: false once it was canceled, its host
    /// was stopped, or a send failed for want of a consumer.
    pub fn alive(&self) -> (r: bool)
        ensures
            r == self.running(),
    {
        match self.phase {
            Phase::Running => true,
            Phase::Stopped => false,
        }
    }

    /// Requests cancellation: the loop is stopped from here on and no
    /// later cycle emits anything. Idempotent, and it never blocks.
    pub fn stop(&mut self)
        ensures
            final(self).inv() == old(self).inv(),
            !final(self).running(),
            final(self).known_ids() == old(self).known_ids(),
            final(self).pending() == old(self).pending(),
            final(self).connected() == old(self).connected(),
    {
        self.phase = Phase::Stopped;
    }

    /// Records that the consumer dropped its end of the channel: the next
    /// cycle that must emit an event fails and stops the loop.
    pub fn disconnect(&mut self)
        ensures
            final(self).inv() == old(self).inv(),
            !final(self).connected(),
            final(self).known_ids() == old(self).known_ids(),
            final(self).pending() == old(self).pending(),
            final(self).running() == old(self).running(),
    {
        self.channel.disconnect()
    }
}

} // verus!
