use vstd::prelude::*;

use crate::channel::{events_view, EventView, P2pEvent};

verus! {

/// Model of the broadcast topic: a single publisher appends events to a
/// shared log, and each subscriber walks that log from its own position.
/// Publishing never waits on subscribers; a subscriber that falls more than
/// `capacity` events behind skips the oldest unread events (lag) instead of
/// delaying the publisher.
pub struct EventTopic {
    log: Vec<P2pEvent>,
    capacity: usize,
}

/// One subscriber's position in the topic's log. Created by
/// `EventTopic::subscribe`; never sees events published before that point.
pub struct EventSubscriber {
    /// Length the log had when this subscriber was created.
    start: usize,
    /// Index of the next event this subscriber will read.
    next: usize,
}

impl EventSubscriber {
    /// Index of the first event published after this subscriber was created.
    pub closed spec fn spec_start(&self) -> int {
        self.start as int
    }

    /// Index of the next event this subscriber will read.
    pub closed spec fn spec_next(&self) -> int {
        self.next as int
    }

    /// A subscriber position is meaningful for a topic when it lies between
    /// its own creation point and the end of the topic's log.
    pub open spec fn valid_for(&self, topic: &EventTopic) -> bool {
        0 <= self.spec_start() <= self.spec_next() <= topic.log_view().len()
    }
}

/// Where a subscriber resumes reading a log of length `len`: at its own next
/// position, unless more than `capacity` events are unread, in which case the
/// oldest unread events are skipped.
pub open spec fn resume_point(next: int, len: int, capacity: int) -> int {
    if len - next > capacity {
        len - capacity
    } else {
        next
    }
}

impl EventTopic {
    /// The events published so far, oldest first.
    pub closed spec fn log_view(&self) -> Seq<EventView> {
        events_view(self.log@)
    }

    /// The per-subscriber backlog bound the topic was created with.
    pub closed spec fn spec_capacity(&self) -> int {
        self.capacity as int
    }

    pub open spec fn well_formed(&self) -> bool {
        self.spec_capacity() >= 1
    }

    /// A fresh topic with no events published and the given backlog bound.
    pub fn new(capacity: usize) -> (r: Self)
        requires
            capacity >= 1,
        ensures
            r.well_formed(),
            r.spec_capacity() == capacity,
            r.log_view() == Seq::<EventView>::empty(),
    {
        let r = EventTopic { log: Vec::new(), capacity };
        proof {
            assert(r.log_view() =~= Seq::<EventView>::empty());
        }
        r
    }

    /// Publish one event: append it to the log. The publisher never suspends
    /// and never waits on subscriber slowness — slow subscribers lag instead.
    pub fn publish(&mut self, event: P2pEvent)
        ensures
            final(self).log_view() == old(self).log_view().push(event@),
            final(self).spec_capacity() == old(self).spec_capacity(),
    {
        let ghost prior = self.log@;
        self.log.push(event);
        proof {
            assert(self.log_view() =~= events_view(prior).push(self.log@[prior.len() as int]@));
        }
    }

    /// A new, independent subscriber. It starts at the current end of the
    /// log: an event already published when `subscribe` is called is never
    /// delivered to the subscriber it returns.
    pub fn subscribe(&self) -> (r: EventSubscriber)
        ensures
            r.valid_for(self),
            r.spec_start() == self.log_view().len(),
            r.spec_next() == self.log_view().len(),
    {
        let here = self.log.len();
        EventSubscriber { start: here, next: here }
    }

    /// One receive by `subscriber`: `None` when it has read the whole log,
    /// otherwise the event at its resume point — its own next unread event,
    /// or, after falling more than `capacity` events behind, the oldest event
    /// still inside the backlog bound. A delivered event always lies at or
    /// after the subscriber's creation point.
    pub fn recv(&self, subscriber: &mut EventSubscriber) -> (r: Option<P2pEvent>)
        requires
            self.well_formed(),
            old(subscriber).valid_for(self),
        ensures
            final(subscriber).valid_for(self),
            final(subscriber).spec_start() == old(subscriber).spec_start(),
            ({
                let at = resume_point(
                    old(subscriber).spec_next(),
                    self.log_view().len() as int,
                    self.spec_capacity(),
                );
                if old(subscriber).spec_next() == self.log_view().len() {
                    r is None && final(subscriber).spec_next() == old(subscriber).spec_next()
                } else {
                    (r matches Some(e) && e@ == self.log_view()[at])
                        && final(subscriber).spec_next() == at + 1
                }
            }),
            (r matches Some(e) ==> exists|i: int|
                old(subscriber).spec_start() <= i < self.log_view().len()
                    && e@ == self.log_view()[i]),
    {
        let len = self.log.len();
        let mut at = subscriber.next;
        if len - at > self.capacity {
            at = len - self.capacity;
        }
        if at >= len {
            None
        } else {
            let event = self.log[at].duplicate();
            subscriber.next = at + 1;
            proof {
                assert(event@ == self.log_view()[at as int]);
                assert(old(subscriber).spec_start() <= at < self.log_view().len());
            }
            Some(event)
        }
    }
}

/// Law: a subscriber never resumes reading before its own next position, and
/// hence never before the point at which it subscribed — an event published
/// earlier is never delivered to it. Absent backlog overflow, it resumes
/// exactly at its next unread event, so a subscriber created before an event
/// that keeps up with the publisher observes it.
pub proof fn lemma_no_replay(start: int, next: int, len: int, capacity: int)
    requires
        0 <= start <= next <= len,
        capacity >= 1,
    ensures
        start <= next <= resume_point(next, len, capacity),
        len - next <= capacity ==> resume_point(next, len, capacity) == next,
{
}

} // verus!
