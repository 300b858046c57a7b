use crate::text::{decimal, push_decimal};
use vstd::prelude::*;
use vstd::string::*;

verus! {

/// The events a protocol instance counts.
#[derive(Clone, Copy)]
pub enum EventType {
    SendMsg,
    RecvMsg,
}

/// The (sent, received) counts after counting `events`, one after the
/// other, from the counts `start`: a sent message raises the first count by
/// one, a received message the second.
pub open spec fn counts_after(start: (nat, nat), events: Seq<EventType>) -> (nat, nat)
    decreases events.len(),
{
    if events.len() == 0 {
        start
    } else {
        let c = counts_after(start, events.drop_last());
        match events.last() {
            EventType::SendMsg => (c.0 + 1, c.1),
            EventType::RecvMsg => (c.0, c.1 + 1),
        }
    }
}

/// Counting `a` and then `b` is counting `a + b`.
pub proof fn lemma_counts_after_concat(start: (nat, nat), a: Seq<EventType>, b: Seq<EventType>)
    ensures
        counts_after(counts_after(start, a), b) == counts_after(start, a + b),
    decreases b.len(),
{
    if b.len() > 0 {
        lemma_counts_after_concat(start, a, b.drop_last());
        assert((a + b).drop_last() =~= a + b.drop_last());
        assert((a + b).last() == b.last());
    } else {
        assert(a + b =~= a);
    }
}

/// Counting never lowers a count.
pub proof fn lemma_counts_after_grow(start: (nat, nat), events: Seq<EventType>)
    ensures
        counts_after(start, events).0 >= start.0,
        counts_after(start, events).1 >= start.1,
    decreases events.len(),
{
    if events.len() > 0 {
        lemma_counts_after_grow(start, events.drop_last());
    }
}

/// Counting a sequence of events from zero gives, for each kind, the
/// number of events of that kind.
pub proof fn lemma_counts_after_are_event_counts(events: Seq<EventType>)
    ensures
        counts_after((0, 0), events) == (
            events.to_multiset().count(EventType::SendMsg),
            events.to_multiset().count(EventType::RecvMsg),
        ),
    decreases events.len(),
{
    broadcast use vstd::seq_lib::group_to_multiset_ensures, vstd::multiset::group_multiset_axioms;
    if events.len() == 0 {
        assert(events.to_multiset() =~= vstd::multiset::Multiset::empty());
    } else {
        let init = events.drop_last();
        lemma_counts_after_are_event_counts(init);
        assert(init.push(events.last()) =~= events);
        assert(events.to_multiset() =~= init.to_multiset().insert(events.last()));
    }
}

/// The counts do not depend on the order of the events: counting two
/// orderings of the same events from zero gives the same counts.
pub proof fn lemma_counts_after_any_order(a: Seq<EventType>, b: Seq<EventType>)
    requires
        a.to_multiset() == b.to_multiset(),
    ensures
        counts_after((0, 0), a) == counts_after((0, 0), b),
{
    lemma_counts_after_are_event_counts(a);
    lemma_counts_after_are_event_counts(b);
}

/// Counts of the messages a protocol instance sent and received.
#[derive(Debug, Clone)]
pub struct EventRecorder {
    send_msg: u64,
    recv_msg: u64,
}

impl EventRecorder {
    /// The number of messages sent.
    pub closed spec fn sent(&self) -> nat {
        self.send_msg as nat
    }

    /// The number of messages received.
    pub closed spec fn received(&self) -> nat {
        self.recv_msg as nat
    }

    /// A recorder with both counts at zero.
    pub fn new() -> (r: EventRecorder)
        ensures
            r.sent() == 0,
            r.received() == 0,
    {
        EventRecorder { send_msg: 0, recv_msg: 0 }
    }

    /// Counts one event: a sent message raises the send count by one, a
    /// received message the receive count; the other count is unchanged.
    pub fn process(&mut self, event: EventType)
        requires
            event is SendMsg ==> old(self).sent() < u64::MAX,
            event is RecvMsg ==> old(self).received() < u64::MAX,
        ensures
            event is SendMsg ==> final(self).sent() == old(self).sent() + 1,
            event is SendMsg ==> final(self).received() == old(self).received(),
            event is RecvMsg ==> final(self).received() == old(self).received() + 1,
            event is RecvMsg ==> final(self).sent() == old(self).sent(),
            (final(self).sent(), final(self).received()) == counts_after(
                (old(self).sent(), old(self).received()),
                seq![event],
            ),
    {
        proof {
            reveal_with_fuel(counts_after, 2);
            assert(seq![event].drop_last() =~= Seq::<EventType>::empty());
        }
        match event {
            EventType::SendMsg => self.send_msg = self.send_msg + 1,
            EventType::RecvMsg => self.recv_msg = self.recv_msg + 1,
        }
    }

    /// Counts each of `events` in turn, as `process` counts one; the counts
    /// must stay within `u64`.
    pub fn process_all(&mut self, events: &Vec<EventType>)
        requires
            counts_after((old(self).sent(), old(self).received()), events@).0 <= u64::MAX,
            counts_after((old(self).sent(), old(self).received()), events@).1 <= u64::MAX,
        ensures
            (final(self).sent(), final(self).received()) == counts_after(
                (old(self).sent(), old(self).received()),
                events@,
            ),
    {
        let ghost start = (self.sent(), self.received());
        let ghost total = counts_after(start, events@);
        let mut i: usize = 0;
        while i < events.len()
            invariant
                i <= events@.len(),
                total == counts_after(start, events@),
                total.0 <= u64::MAX,
                total.1 <= u64::MAX,
                (self.sent(), self.received()) == counts_after(start, events@.subrange(0, i as int)),
            decreases events@.len() - i,
        {
            let e = events[i];
            proof {
                let pre = events@.subrange(0, i + 1);
                let rest = events@.subrange(i + 1, events@.len() as int);
                assert(pre.drop_last() =~= events@.subrange(0, i as int));
                assert(pre + rest =~= events@);
                lemma_counts_after_concat(start, pre, rest);
                lemma_counts_after_grow(counts_after(start, pre), rest);
            }
            self.process(e);
            proof {
                reveal_with_fuel(counts_after, 2);
                assert(events@.subrange(0, i + 1) =~= events@.subrange(0, i as int) + seq![e]);
                lemma_counts_after_concat(start, events@.subrange(0, i as int), seq![e]);
            }
            i = i + 1;
        }
        assert(events@.subrange(0, events@.len() as int) =~= events@);
    }

    /// The number of messages sent.
    pub fn send_count(&self) -> (r: u64)
        ensures
            r == self.sent(),
    {
        self.send_msg
    }

    /// The number of messages received.
    pub fn recv_count(&self) -> (r: u64)
        ensures
            r == self.received(),
    {
        self.recv_msg
    }

    /// The summary line `send_cnt: S, recv_cnt: R`.
    pub fn to_display_string(&self) -> (r: String)
        ensures
            r@ == "send_cnt: "@ + decimal(self.sent()) + ", recv_cnt: "@ + decimal(
                self.received(),
            ),
    {
        let mut s = String::from_str("send_cnt: ");
        push_decimal(&mut s, self.send_msg);
        s.append(", recv_cnt: ");
        push_decimal(&mut s, self.recv_msg);
        s
    }
}

impl Default for EventRecorder {
    fn default() -> (r: EventRecorder)
        ensures
            r.sent() == 0,
            r.received() == 0,
    {
        EventRecorder::new()
    }
}

} // verus!
