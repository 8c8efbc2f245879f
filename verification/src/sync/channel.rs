//! The bounded request channel between the group-import producers and the
//! coordinator: the sole backpressure mechanism of a run.
//!
//! The channel is a first-in first-out queue with a fixed capacity. A send
//! into a full channel does not go through and leaves the queue untouched —
//! the sender suspends and offers the message again once the coordinator
//! has drained capacity — so no request is ever dropped or reordered, and
//! never more than `capacity` requests sit queued awaiting dispatch.

use vstd::prelude::*;

use crate::celcat::fetchable::calendar::CourseId;
use crate::sync::coordinator::ReqView;

verus! {

/// One request travelling from a producer to the coordinator: the course to
/// guarantee, and the reply channel to resolve once it is persisted.
#[derive(Debug)]
pub struct Request {
    pub course: CourseId,
    pub reply: u64,
}

impl View for Request {
    type V = ReqView;

    open spec fn view(&self) -> ReqView {
        ReqView { course: self.course@, reply: self.reply }
    }
}

/// What became of a send attempt.
#[derive(Clone, Copy, PartialEq, Eq, Structural, Debug)]
pub enum SendResult {
    /// The message sits at the back of the queue.
    Sent,
    /// The channel was full: nothing changed, the sender must suspend and
    /// try again after the coordinator has received.
    Full,
}

/// The bounded first-in first-out request channel.
pub struct RequestChannel {
    buf: Vec<Request>,
    cap: usize,
}

impl View for RequestChannel {
    type V = Seq<ReqView>;

    closed spec fn view(&self) -> Seq<ReqView> {
        Seq::new(self.buf@.len(), |i: int| self.buf@[i]@)
    }
}

impl RequestChannel {
    /// The capacity the channel was created with.
    pub closed spec fn spec_capacity(&self) -> nat {
        self.cap as nat
    }

    /// The queue never holds more than its capacity.
    pub open spec fn wf(&self) -> bool {
        self@.len() <= self.spec_capacity()
    }

    /// A fresh, empty channel of the given capacity (the backpressure
    /// knob: how far producers may race ahead of worker throughput).
    pub fn new(capacity: usize) -> (c: RequestChannel)
        requires
            capacity >= 1,
        ensures
            c.wf(),
            c@ == Seq::<ReqView>::empty(),
            c.spec_capacity() == capacity,
    {
        let c = RequestChannel { buf: Vec::new(), cap: capacity };
        proof {
            assert(c@ =~= Seq::<ReqView>::empty());
        }
        c
    }

    /// Offers one message. A full channel refuses it and keeps the queue
    /// exactly as it was — nothing is dropped or reordered; otherwise the
    /// message takes its place at the back of the queue.
    pub fn send(&mut self, m: Request) -> (r: SendResult)
        requires
            old(self).wf(),
        ensures
            final(self).wf(),
            final(self).spec_capacity() == old(self).spec_capacity(),
            old(self)@.len() == old(self).spec_capacity() ==> r == SendResult::Full
                && final(self)@ == old(self)@,
            old(self)@.len() < old(self).spec_capacity() ==> r == SendResult::Sent
                && final(self)@ == old(self)@.push(m@),
    {
        if self.buf.len() == self.cap {
            SendResult::Full
        } else {
            let ghost pre = self@;
            let ghost mv = m@;
            self.buf.push(m);
            proof {
                assert(self@ =~= pre.push(mv));
            }
            SendResult::Sent
        }
    }

    /// Receives the oldest queued message, in arrival order; `None` when
    /// the queue is empty and the coordinator must suspend for the next
    /// send.
    pub fn recv(&mut self) -> (r: Option<Request>)
        requires
            old(self).wf(),
        ensures
            final(self).wf(),
            final(self).spec_capacity() == old(self).spec_capacity(),
            old(self)@.len() == 0 ==> r is None && final(self)@ == old(self)@,
            old(self)@.len() > 0 ==> (r matches Some(m) && m@ == old(self)@[0]
                && final(self)@ == old(self)@.drop_first()),
    {
        if self.buf.len() == 0 {
            None
        } else {
            let ghost pre = self@;
            let m = self.buf.remove(0);
            proof {
                assert(self@ =~= pre.drop_first());
            }
            Some(m)
        }
    }

    /// How many requests sit queued awaiting dispatch.
    pub fn len(&self) -> (n: usize)
        ensures
            n == self@.len(),
    {
        self.buf.len()
    }

    /// The capacity the channel was created with.
    pub fn capacity(&self) -> (n: usize)
        ensures
            n == self.spec_capacity(),
    {
        self.cap
    }
}

} // verus!
