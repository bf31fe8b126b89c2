//! Ordered command queue: the buffer between the ingress path and the
//! tick loop. Each command gets the next sequence number on insertion
//! (local receive order, not a global causal order), and a tick takes
//! the whole contents at once — swap, not merge — so no command is ever
//! delivered twice or split across ticks. The concurrency wrapper (one
//! mutual-exclusion lock around this structure) lives with the I/O code
//! outside the library.

use vstd::prelude::*;
use crate::input_messages::GameEvent;
use crate::networking::NetAddress;

verus! {

/// One buffered command with the address it came from and its local
/// sequence number.
#[derive(Debug)]
pub struct QueuedMessage {
    pub data: GameEvent,
    pub addr: NetAddress,
    pub order: u64,
}

/// Sequence numbers strictly increase along the buffer.
pub open spec fn ordered(s: Seq<QueuedMessage>) -> bool {
    forall|i: int, j: int| 0 <= i < j < s.len() ==> s[i].order < s[j].order
}

/// The highest sequence number observed so far; 0 on an empty buffer.
pub open spec fn latest_order(s: Seq<QueuedMessage>) -> u64 {
    if s.len() == 0 {
        0
    } else {
        s.last().order
    }
}

/// What one drain does: it hands out the whole buffered sequence and
/// leaves the queue empty.
pub open spec fn drain_rel(
    before: Seq<QueuedMessage>,
    out: Seq<QueuedMessage>,
    after: Seq<QueuedMessage>,
) -> bool {
    out == before && after == Seq::<QueuedMessage>::empty()
}

/// Draining twice in a row with no intervening enqueue returns an
/// empty sequence the second time: nothing is delivered twice.
pub proof fn lemma_drain_twice(
    q0: Seq<QueuedMessage>,
    out1: Seq<QueuedMessage>,
    q1: Seq<QueuedMessage>,
    out2: Seq<QueuedMessage>,
    q2: Seq<QueuedMessage>,
)
    requires
        drain_rel(q0, out1, q1),
        drain_rel(q1, out2, q2),
    ensures
        out2 == Seq::<QueuedMessage>::empty(),
{
}

/// The temporally-ordered command buffer.
#[derive(Debug)]
pub struct MessageQueue {
    pub messages: Vec<QueuedMessage>,
}

impl MessageQueue {
    /// The buffer is well-formed when its sequence numbers strictly
    /// increase.
    pub open spec fn wf(self) -> bool {
        ordered(self.messages@)
    }

    /// An empty queue.
    pub fn new() -> (q: MessageQueue)
        ensures
            q.wf(),
            q.messages@ == Seq::<QueuedMessage>::empty(),
    {
        MessageQueue { messages: Vec::new() }
    }

    /// The highest sequence number assigned so far; 0 when nothing was
    /// ever enqueued since the last construction.
    pub fn peek_latest_order(&self) -> (r: u64)
        ensures
            r == latest_order(self.messages@),
    {
        if self.messages.len() == 0 {
            0
        } else {
            self.messages[self.messages.len() - 1].order
        }
    }

    /// Buffers one command: assigns the next sequence number (the
    /// highest observed so far plus one) and appends in order.
    pub fn enqueue(&mut self, data: GameEvent, addr: NetAddress)
        requires
            old(self).wf(),
            latest_order(old(self).messages@) < u64::MAX,
        ensures
            final(self).wf(),
            final(self).messages@.len() == old(self).messages@.len() + 1,
            final(self).messages@ == old(self).messages@.push(final(self).messages@.last()),
            final(self).messages@.last().data == data,
            final(self).messages@.last().addr == addr,
            final(self).messages@.last().order == latest_order(old(self).messages@) + 1,
    {
        let order = self.peek_latest_order() + 1;
        self.messages.push(QueuedMessage { data, addr, order });
    }

    /// Atomically takes the whole ordered contents and clears the
    /// queue: the drained sequence is disjoint from whatever is
    /// enqueued afterwards.
    pub fn drain_all(&mut self) -> (out: Vec<QueuedMessage>)
        ensures
            drain_rel(old(self).messages@, out@, final(self).messages@),
            old(self).wf() ==> ordered(out@),
    {
        let mut out: Vec<QueuedMessage> = Vec::new();
        core::mem::swap(&mut out, &mut self.messages);
        out
    }
}

} // verus!
