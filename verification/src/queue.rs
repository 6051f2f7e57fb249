//! Client handoff channel: a bounded FIFO mailbox by which the accept
//! subsystem delivers authenticated clients to the tick loop. The capacity
//! bounds pending, not-yet-simulated handoffs; total live connections are
//! bounded separately by the admission limiter.

use vstd::prelude::*;
use crate::types::NewClientMessage;

verus! {

/// Mathematical state of a [`HandoffQueue`]: its fixed capacity and the
/// queued messages, oldest first.
pub struct HandoffQueueView {
    pub capacity: nat,
    pub messages: Seq<NewClientMessage>,
}

/// The state of a queue after a message is accepted at the back.
pub open spec fn spec_send(v: HandoffQueueView, m: NewClientMessage) -> HandoffQueueView
    recommends
        v.messages.len() < v.capacity,
{
    HandoffQueueView { messages: v.messages.push(m), ..v }
}

/// The state of a queue after the oldest message is taken from the front.
pub open spec fn spec_recv(v: HandoffQueueView) -> HandoffQueueView
    recommends
        v.messages.len() >= 1,
{
    HandoffQueueView { messages: v.messages.subrange(1, v.messages.len() as int), ..v }
}

/// The bounded FIFO mailbox of handoff messages.
pub struct HandoffQueue {
    capacity: usize,
    items: Vec<NewClientMessage>,
}

impl View for HandoffQueue {
    type V = HandoffQueueView;

    closed spec fn view(&self) -> HandoffQueueView {
        HandoffQueueView { capacity: self.capacity as nat, messages: self.items@ }
    }
}

impl HandoffQueue {
    /// The queue never holds more messages than its capacity.
    pub open spec fn wf(&self) -> bool {
        self@.messages.len() <= self@.capacity
    }

    /// Creates an empty queue with the given capacity.
    pub fn new(capacity: usize) -> (r: HandoffQueue)
        ensures
            r@.capacity == capacity,
            r@.messages =~= Seq::<NewClientMessage>::empty(),
            r.wf(),
    {
        HandoffQueue { capacity, items: Vec::new() }
    }

    /// Number of messages currently queued.
    pub fn len(&self) -> (r: usize)
        ensures
            r == self@.messages.len(),
    {
        self.items.len()
    }

    /// The capacity fixed at construction.
    pub fn capacity(&self) -> (r: usize)
        ensures
            r == self@.capacity,
    {
        self.capacity
    }

    /// Offers a message. A full queue rejects it and hands it back unchanged
    /// — the caller owns the retry (the asynchronous side suspends and tries
    /// again, which is the backpressure on new-client processing); otherwise
    /// the message is appended behind every message already queued.
    pub fn try_send(&mut self, m: NewClientMessage) -> (rejected: Option<NewClientMessage>)
        requires
            old(self).wf(),
        ensures
            final(self).wf(),
            old(self)@.messages.len() < old(self)@.capacity ==> rejected is None
                && final(self)@ == spec_send(old(self)@, m),
            old(self)@.messages.len() >= old(self)@.capacity ==> final(self)@ == old(self)@
                && rejected == Some(m),
    {
        if self.items.len() < self.capacity {
            self.items.push(m);
            None
        } else {
            Some(m)
        }
    }

    /// Takes every message present when the call starts: the tick loop's
    /// intake. The number to take is read once, up front, so a tick's
    /// workload is bounded by the backlog at the start of that tick; the
    /// messages come back in exactly their send order.
    pub fn drain(&mut self) -> (msgs: Vec<NewClientMessage>)
        requires
            old(self).wf(),
        ensures
            final(self).wf(),
            msgs@ =~= old(self)@.messages,
            final(self)@.messages =~= Seq::<NewClientMessage>::empty(),
            final(self)@.capacity == old(self)@.capacity,
    {
        let snapshot = self.items.len();
        let mut msgs: Vec<NewClientMessage> = Vec::new();
        let mut i: usize = 0;
        while i < snapshot
            invariant
                i <= snapshot,
                snapshot == old(self)@.messages.len(),
                self@.capacity == old(self)@.capacity,
                self@.messages =~= old(self)@.messages.skip(i as int),
                msgs@ =~= old(self)@.messages.take(i as int),
                self.wf(),
            decreases snapshot - i,
        {
            let taken = self.try_recv();
            match taken {
                Some(m) => {
                    msgs.push(m);
                }
                None => {
                    // Unreachable: `i < snapshot` messages are still queued.
                }
            }
            i = i + 1;
        }
        msgs
    }

    /// Takes the oldest message, if any; never blocks. Messages come out in
    /// exactly the order they were accepted.
    pub fn try_recv(&mut self) -> (r: Option<NewClientMessage>)
        requires
            old(self).wf(),
        ensures
            final(self).wf(),
            old(self)@.messages.len() == 0 ==> r is None && final(self)@ == old(self)@,
            old(self)@.messages.len() >= 1 ==> r == Some(old(self)@.messages[0])
                && final(self)@ == spec_recv(old(self)@),
    {
        if self.items.len() > 0 {
            let m = self.items.remove(0);
            Some(m)
        } else {
            None
        }
    }
}

/// Law: the mailbox is first-in first-out — whatever is queued, two messages
/// accepted one after the other sit behind the existing backlog in their
/// send order, so they are taken out in that same order.
pub proof fn lemma_send_order(v: HandoffQueueView, a: NewClientMessage, b: NewClientMessage)
    requires
        v.messages.len() + 2 <= v.capacity,
    ensures
        spec_send(spec_send(v, a), b).messages =~= v.messages + seq![a, b],
        spec_send(spec_send(v, a), b).messages[v.messages.len() as int] == a,
        spec_send(spec_send(v, a), b).messages[v.messages.len() as int + 1] == b,
{
}

/// Law: taking one message removes exactly the oldest one and keeps the
/// order of the rest.
pub proof fn lemma_recv_front(v: HandoffQueueView, i: int)
    requires
        1 <= i < v.messages.len(),
    ensures
        spec_recv(v).messages.len() == v.messages.len() - 1,
        spec_recv(v).messages[i - 1] == v.messages[i],
{
}

} // verus!
