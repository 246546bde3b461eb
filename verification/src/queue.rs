//! The bounded outbound queue.
//!
//! Command producers push typed messages here; the active session drains it
//! in order. When no session is draining and the queue is full, a push is a
//! defined drop — the producer never blocks and never fails.

use vstd::prelude::*;
use crate::codec::{encode, encode_message};
use crate::messages::TypedMessage;

verus! {

/// A bounded first-in-first-out queue of outbound messages.
pub struct OutboundQueue {
    items: Vec<TypedMessage>,
    capacity: usize,
}

impl OutboundQueue {
    /// The messages waiting, oldest first.
    pub closed spec fn view(&self) -> Seq<TypedMessage> {
        self.items@
    }

    /// The most messages the queue will hold.
    pub closed spec fn cap(&self) -> nat {
        self.capacity as nat
    }

    /// Never more messages than the capacity allows.
    pub open spec fn wf(&self) -> bool {
        self.view().len() <= self.cap()
    }

    /// An empty queue with the given capacity.
    pub fn new(capacity: usize) -> (q: OutboundQueue)
        ensures
            q.view() == Seq::<TypedMessage>::empty(),
            q.cap() == capacity,
            q.wf(),
    {
        OutboundQueue { items: Vec::new(), capacity }
    }

    /// Push a message. With room it is appended and kept; when the queue is
    /// full it is dropped and the queue is unchanged — a defined drop, not
    /// an error.
    pub fn push(&mut self, m: TypedMessage) -> (accepted: bool)
        requires
            old(self).wf(),
        ensures
            final(self).wf(),
            final(self).cap() == old(self).cap(),
            accepted == (old(self).view().len() < old(self).cap()),
            accepted ==> final(self).view() == old(self).view().push(m),
            !accepted ==> final(self).view() == old(self).view(),
    {
        if self.items.len() < self.capacity {
            self.items.push(m);
            true
        } else {
            false
        }
    }

    /// Take the oldest message, if any: messages leave in the order they
    /// were pushed.
    pub fn pop(&mut self) -> (r: Option<TypedMessage>)
        requires
            old(self).wf(),
        ensures
            final(self).wf(),
            final(self).cap() == old(self).cap(),
            (match r {
                Option::Some(m) => old(self).view().len() > 0 && m == old(self).view()[0]
                    && final(self).view() == old(self).view().drop_first(),
                Option::None => old(self).view().len() == 0 && final(self).view() == old(
                    self).view(),
            }),
    {
        if self.items.len() > 0 {
            let m = self.items.remove(0);
            proof {
                assert(old(self).view().subrange(1, old(self).view().len() as int)
                    =~= old(self).view().drop_first());
            }
            Some(m)
        } else {
            None
        }
    }

    /// Take the oldest message and frame it for the wire. A message whose
    /// frame cannot be built is consumed and dropped with nothing sent —
    /// the write path never stalls on one bad message.
    pub fn take_frame(&mut self) -> (r: Option<Vec<u8>>)
        requires
            old(self).wf(),
        ensures
            final(self).wf(),
            final(self).cap() == old(self).cap(),
            old(self).view().len() == 0 ==> r is None && final(self).view() == old(self).view(),
            old(self).view().len() > 0 ==> final(self).view() == old(self).view().drop_first(),
            old(self).view().len() > 0 && old(self).view()[0]@.encodable() ==> (r
                matches Option::Some(f) && f@ == encode_message(old(self).view()[0]@)),
            old(self).view().len() > 0 && !old(self).view()[0]@.encodable() ==> r is None,
    {
        match self.pop() {
            Some(m) => if m.can_encode() {
                Some(encode(&m))
            } else {
                None
            },
            None => None,
        }
    }

    /// How many messages are waiting.
    pub fn len(&self) -> (n: usize)
        ensures
            n == self.view().len(),
    {
        self.items.len()
    }
}

} // verus!
