//! The event channel of one job: an unbounded first-in, first-out queue
//! from the readers of the archiver's output to the user interface.
//!
//! The channel takes events until it has taken the terminal one.  So, of
//! everything that a channel ever hands out, a terminal event is the last.

use crate::event::{CommandUpdate, UpdateView, update_views};
use std::collections::VecDeque;
use vstd::prelude::*;

verus! {

/// The queue between the producers of one job and its one consumer.
pub struct EventChannel {
    queue: VecDeque<CommandUpdate>,
    sealed: bool,
    accepted: Ghost<Seq<UpdateView>>,
}

impl EventChannel {
    /// The events that wait to be received, the oldest first.
    pub closed spec fn pending(&self) -> Seq<UpdateView> {
        update_views(self.queue@)
    }

    /// Every event that the channel has taken so far, the oldest first.
    pub closed spec fn history(&self) -> Seq<UpdateView> {
        self.accepted@
    }

    /// Whether the channel has taken the terminal event.
    pub closed spec fn sealed(&self) -> bool {
        self.sealed
    }

    /// The pending events are the newest of the history; the channel is
    /// sealed exactly when the history ends with a terminal event, and no
    /// terminal event stands anywhere else in it.
    pub open spec fn wf(&self) -> bool {
        &&& self.pending().len() <= self.history().len()
        &&& self.pending() == self.history().skip(self.history().len() - self.pending().len())
        &&& self.sealed() <==> self.history().len() > 0 && self.history().last() is Completed
        &&& forall|i: int|
            0 <= i < self.history().len() - 1 ==> !(#[trigger] self.history()[i] is Completed)
    }

    /// A channel that has taken nothing yet.
    pub fn new() -> (channel: EventChannel)
        ensures
            channel.wf(),
            !channel.sealed(),
            channel.history() == Seq::<UpdateView>::empty(),
            channel.pending() == Seq::<UpdateView>::empty(),
    {
        let channel = EventChannel {
            queue: VecDeque::new(),
            sealed: false,
            accepted: Ghost(Seq::empty()),
        };
        assert(channel.pending() =~= channel.history().skip(0));
        channel
    }

    /// Whether the channel has taken the terminal event.
    pub fn is_sealed(&self) -> (sealed: bool)
        ensures
            sealed == self.sealed(),
    {
        self.sealed
    }

    /// The number of events that wait to be received.
    pub fn len(&self) -> (count: usize)
        ensures
            count == self.pending().len(),
    {
        self.queue.len()
    }

    /// Whether no event waits to be received.
    pub fn is_empty(&self) -> (empty: bool)
        ensures
            empty == (self.pending().len() == 0),
    {
        self.queue.len() == 0
    }

    /// Offers an event to the channel.  An open channel takes it, behind
    /// all earlier ones, and the terminal event seals the channel.  A
    /// sealed channel takes nothing and stays as it is.
    pub fn send(&mut self, update: CommandUpdate) -> (taken: bool)
        requires
            old(self).wf(),
        ensures
            final(self).wf(),
            taken == !old(self).sealed(),
            taken ==> final(self).history() == old(self).history().push(update@)
                && final(self).pending() == old(self).pending().push(update@),
            !taken ==> final(self).history() == old(self).history() && final(self).pending()
                == old(self).pending() && final(self).sealed(),
    {
        if self.sealed {
            return false;
        }
        let ghost before = self.pending();
        let ghost history = self.accepted@;
        let terminal = match &update {
            CommandUpdate::Completed { .. } => true,
            _ => false,
        };
        self.accepted = Ghost(history.push(update@));
        self.queue.push_back(update);
        self.sealed = terminal;
        proof {
            let longer = history.push(update@);
            assert(self.pending() =~= before.push(update@));
            assert(self.pending() =~= longer.skip(longer.len() - self.pending().len()));
            assert(forall|i: int|
                0 <= i < longer.len() - 1 ==> !(#[trigger] longer[i] is Completed));
        }
        true
    }

    /// Takes the oldest pending event, if there is one.  An empty channel
    /// answers `None` at once and stays as it is.
    pub fn try_recv(&mut self) -> (update: Option<CommandUpdate>)
        requires
            old(self).wf(),
        ensures
            final(self).wf(),
            final(self).history() == old(self).history(),
            final(self).sealed() == old(self).sealed(),
            old(self).pending().len() == 0 ==> update is None && final(self).pending()
                == old(self).pending(),
            old(self).pending().len() > 0 ==> update is Some && update->0@ == old(
                self,
            ).pending()[0] && final(self).pending() == old(self).pending().skip(1),
    {
        let ghost before = self.pending();
        let update = self.queue.pop_front();
        proof {
            if before.len() > 0 {
                assert(self.pending() =~= before.skip(1));
                assert(self.pending() =~= self.history().skip(
                    self.history().len() - self.pending().len(),
                ));
            }
        }
        update
    }

    /// Takes every pending event, the oldest first.  An empty channel
    /// answers with an empty list at once.
    pub fn drain(&mut self) -> (updates: Vec<CommandUpdate>)
        requires
            old(self).wf(),
        ensures
            final(self).wf(),
            final(self).history() == old(self).history(),
            final(self).sealed() == old(self).sealed(),
            final(self).pending() == Seq::<UpdateView>::empty(),
            update_views(updates@) == old(self).pending(),
    {
        let mut updates: Vec<CommandUpdate> = Vec::new();
        let ghost start = self.pending();
        loop
            invariant
                self.wf(),
                self.history() == old(self).history(),
                self.sealed() == old(self).sealed(),
                update_views(updates@).len() <= start.len(),
                update_views(updates@) == start.take(update_views(updates@).len() as int),
                self.pending() == start.skip(update_views(updates@).len() as int),
            ensures
                self.wf(),
                self.history() == old(self).history(),
                self.sealed() == old(self).sealed(),
                self.pending() == Seq::<UpdateView>::empty(),
                update_views(updates@) == start,
            decreases self.pending().len(),
        {
            match self.try_recv() {
                Some(update) => {
                    updates.push(update);
                },
                None => {
                    break;
                },
            }
        }
        updates
    }
}

/// In a channel's history a terminal event is the last event: nothing was
/// taken after it, and so there is at most one.
pub proof fn lemma_terminal_event_is_last(channel: EventChannel, i: int)
    requires
        channel.wf(),
        0 <= i < channel.history().len(),
        channel.history()[i] is Completed,
    ensures
        i == channel.history().len() - 1,
        channel.sealed(),
{
}

/// Among the pending events of a channel a terminal event is the last.
pub proof fn lemma_pending_terminal_is_last(channel: EventChannel, i: int)
    requires
        channel.wf(),
        0 <= i < channel.pending().len(),
        channel.pending()[i] is Completed,
    ensures
        i == channel.pending().len() - 1,
{
    let offset = channel.history().len() - channel.pending().len();
}

} // verus!
