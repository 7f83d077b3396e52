use vstd::prelude::*;

use crate::error::{ErrorView, P2pError};
use crate::manager::{commands_view, CommandView, ManagerCommand};

verus! {

/// Model of the bounded command queue: any number of producers (channel
/// handles) feed exactly one consumer (the actor loop). Nothing is ever
/// dropped or reordered: a submit against a full queue makes the caller
/// wait, one against a queue whose consumer is gone fails with a typed
/// error, and a drained queue whose producers are all gone is end of input.
pub struct CommandQueue {
    items: Vec<ManagerCommand>,
    capacity: usize,
    consumer_gone: bool,
    producers_gone: bool,
}

/// What one submission did. The channel handle turns `MustWait` into a
/// suspension of the submitting caller — never into a drop or a reorder —
/// and `Refused` into the error the caller's submit returns.
#[derive(Debug)]
pub enum SubmitOutcome {
    /// The command was appended to the queue.
    Enqueued,
    /// The queue is full: the caller keeps the command and suspends until
    /// space frees.
    MustWait(ManagerCommand),
    /// The consumer is gone, so the command can never be executed: the
    /// caller gets the typed channel-closed failure, naming the endpoint.
    Refused(ManagerCommand, P2pError),
}

impl CommandQueue {
    /// The queued commands, front of the queue first.
    pub closed spec fn contents(&self) -> Seq<CommandView> {
        commands_view(self.items@)
    }

    /// The fixed bound the queue was created with.
    pub closed spec fn spec_capacity(&self) -> int {
        self.capacity as int
    }

    /// Whether the single consumer has been dropped.
    pub closed spec fn consumer_closed(&self) -> bool {
        self.consumer_gone
    }

    /// Whether every producer handle has been dropped.
    pub closed spec fn producers_closed(&self) -> bool {
        self.producers_gone
    }

    pub open spec fn well_formed(&self) -> bool {
        self.spec_capacity() >= 1 && self.contents().len() <= self.spec_capacity()
    }

    /// A fresh, open, empty queue with the given bound.
    pub fn new(capacity: usize) -> (r: Self)
        requires
            capacity >= 1,
        ensures
            r.well_formed(),
            r.spec_capacity() == capacity,
            r.contents() == Seq::<CommandView>::empty(),
            !r.consumer_closed(),
            !r.producers_closed(),
    {
        let r = CommandQueue {
            items: Vec::new(),
            capacity,
            consumer_gone: false,
            producers_gone: false,
        };
        proof {
            assert(r.contents() =~= Seq::<CommandView>::empty());
        }
        r
    }

    /// One producer's submission. Exactly one of three things happens: the
    /// command is appended behind every earlier submission; or the queue is
    /// full and the command comes back for the caller to wait with; or the
    /// consumer is gone and the command comes back with the channel-closed
    /// failure naming the manager endpoint. The queued commands change only
    /// in the first case, and only by the one appended command.
    pub fn submit(&mut self, command: ManagerCommand) -> (r: SubmitOutcome)
        requires
            old(self).well_formed(),
        ensures
            final(self).well_formed(),
            final(self).spec_capacity() == old(self).spec_capacity(),
            final(self).consumer_closed() == old(self).consumer_closed(),
            final(self).producers_closed() == old(self).producers_closed(),
            old(self).consumer_closed() ==> (r matches SubmitOutcome::Refused(c, e)
                && c@ == command@ && e@ == ErrorView::ChannelClosed("manager"@)
                && final(self).contents() == old(self).contents()),
            !old(self).consumer_closed() && old(self).contents().len()
                == old(self).spec_capacity() ==> (r matches SubmitOutcome::MustWait(c)
                && c@ == command@ && final(self).contents() == old(self).contents()),
            !old(self).consumer_closed() && old(self).contents().len()
                < old(self).spec_capacity() ==> (r matches SubmitOutcome::Enqueued
                && final(self).contents() == old(self).contents().push(command@)),
    {
        if self.consumer_gone {
            return SubmitOutcome::Refused(
                command,
                P2pError::ChannelClosed("manager".to_owned()),
            );
        }
        if self.items.len() == self.capacity {
            return SubmitOutcome::MustWait(command);
        }
        let ghost prior = self.items@;
        self.items.push(command);
        proof {
            assert(self.contents() =~= commands_view(prior).push(self.items@[prior.len() as int]@));
        }
        SubmitOutcome::Enqueued
    }

    /// The consumer's next step once it is runnable: the front command, in
    /// exactly the order of successful submission, or end of input once the
    /// queue is drained and every producer is gone. On an empty queue with
    /// live producers the consumer suspends instead, so this asks to be
    /// called only outside that case.
    pub fn next_command(&mut self) -> (r: Option<ManagerCommand>)
        requires
            old(self).well_formed(),
            old(self).contents().len() > 0 || old(self).producers_closed(),
        ensures
            final(self).well_formed(),
            final(self).spec_capacity() == old(self).spec_capacity(),
            final(self).consumer_closed() == old(self).consumer_closed(),
            final(self).producers_closed() == old(self).producers_closed(),
            old(self).contents().len() > 0 ==> (r matches Some(c)
                && c@ == old(self).contents()[0]
                && final(self).contents() == old(self).contents().drop_first()),
            old(self).contents().len() == 0 ==> r is None && final(self).contents()
                == old(self).contents(),
    {
        if self.items.len() == 0 {
            return None;
        }
        let ghost prior = self.items@;
        let command = self.items.remove(0);
        proof {
            assert(self.contents() =~= commands_view(prior).drop_first());
        }
        Some(command)
    }

    /// Drop the last producer handle: no further command will ever be
    /// enqueued, and once the queue is drained the consumer sees end of
    /// input — the loop's natural, graceful stop.
    pub fn close_producers(&mut self)
        requires
            old(self).well_formed(),
        ensures
            final(self).well_formed(),
            final(self).spec_capacity() == old(self).spec_capacity(),
            final(self).contents() == old(self).contents(),
            final(self).consumer_closed() == old(self).consumer_closed(),
            final(self).producers_closed(),
    {
        self.producers_gone = true;
    }

    /// Drop the single consumer: every later submission is refused with the
    /// channel-closed failure, and already-queued commands are never
    /// executed.
    pub fn close_consumer(&mut self)
        requires
            old(self).well_formed(),
        ensures
            final(self).well_formed(),
            final(self).spec_capacity() == old(self).spec_capacity(),
            final(self).contents() == old(self).contents(),
            final(self).producers_closed() == old(self).producers_closed(),
            final(self).consumer_closed(),
    {
        self.consumer_gone = true;
    }
}

} // verus!
