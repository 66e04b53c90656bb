//! The router: the single consumer of the queue, which decides where each
//! entry is replayed.

use vstd::prelude::*;
use crate::message::{messages, messages_from, EntryView, Origin, QueueEntry};

verus! {

/// A place the router writes to.
#[derive(Clone, Copy, Debug, PartialEq, Eq, Structural)]
pub enum Sink {
    /// The connection to the local MIDI output port.
    Output,
    /// The socket that mirrors every message to the multicast group.
    Multicast,
    /// The socket connected to the remote peer.
    Unicast,
}

/// One send that the router asks for: these bytes, to that sink.
#[derive(Debug, PartialEq, Eq)]
pub struct Dispatch {
    pub sink: Sink,
    pub payload: Vec<u8>,
}

/// What a [`Dispatch`] stands for.
pub struct DispatchView {
    pub sink: Sink,
    pub payload: Seq<u8>,
}

impl Clone for Dispatch {
    fn clone(&self) -> (copy: Dispatch)
        ensures
            copy@ == self@,
    {
        Dispatch { sink: self.sink, payload: self.payload.clone() }
    }
}

impl View for Dispatch {
    type V = DispatchView;

    open spec fn view(&self) -> DispatchView {
        DispatchView { sink: self.sink, payload: self.payload@ }
    }
}

impl DeepView for Dispatch {
    type V = DispatchView;

    open spec fn deep_view(&self) -> DispatchView {
        self@
    }
}

/// The sends owed to one entry, in the order in which they are made: the
/// local output, the multicast group, and the peer only for a local entry.
pub open spec fn dispatches(entry: EntryView) -> Seq<DispatchView> {
    let output = DispatchView { sink: Sink::Output, payload: entry.bytes };
    let multicast = DispatchView { sink: Sink::Multicast, payload: entry.bytes };
    let unicast = DispatchView { sink: Sink::Unicast, payload: entry.bytes };
    if entry.origin == Origin::Local {
        seq![output, multicast, unicast]
    } else {
        seq![output, multicast]
    }
}

/// The sends owed to a whole queue: those of its entries, front first.
pub open spec fn trace(queue: Seq<EntryView>) -> Seq<DispatchView>
    decreases queue.len(),
{
    if queue.len() == 0 {
        Seq::empty()
    } else {
        trace(queue.drop_last()) + dispatches(queue.last())
    }
}

/// The payloads that a run of sends hands to `sink`, in order.
pub open spec fn payloads_to(sends: Seq<DispatchView>, sink: Sink) -> Seq<Seq<u8>> {
    sends.filter(|send: DispatchView| send.sink == sink).map_values(
        |send: DispatchView| send.payload,
    )
}

/// The entries that a bridge queues for the datagrams its peer sent it,
/// where each arrives whole and in the order of sending.
pub open spec fn arrivals(datagrams: Seq<Seq<u8>>) -> Seq<EntryView> {
    datagrams.map_values(|bytes: Seq<u8>| EntryView { bytes, origin: Origin::Remote })
}

/// One more send adds its payload to the sink it names and to no other.
proof fn payloads_after_send(sends: Seq<DispatchView>, send: DispatchView, sink: Sink)
    ensures
        payloads_to(sends.push(send), sink) == if send.sink == sink {
            payloads_to(sends, sink).push(send.payload)
        } else {
            payloads_to(sends, sink)
        },
{
    reveal(Seq::filter);
    assert(sends.push(send).drop_last() =~= sends);
}

/// The payloads for a sink, over two runs of sends laid end to end.
proof fn payloads_of_concatenation(front: Seq<DispatchView>, back: Seq<DispatchView>, sink: Sink)
    ensures
        payloads_to(front + back, sink) == payloads_to(front, sink) + payloads_to(back, sink),
{
    Seq::filter_distributes_over_add(front, back, |send: DispatchView| send.sink == sink);
}

/// What each sink gets from the sends owed to a single entry.
proof fn payloads_of_entry(entry: EntryView, sink: Sink)
    ensures
        payloads_to(dispatches(entry), sink) == if sink == Sink::Unicast && entry.origin
            == Origin::Remote {
            Seq::<Seq<u8>>::empty()
        } else {
            seq![entry.bytes]
        },
{
    let output = DispatchView { sink: Sink::Output, payload: entry.bytes };
    let multicast = DispatchView { sink: Sink::Multicast, payload: entry.bytes };
    let unicast = DispatchView { sink: Sink::Unicast, payload: entry.bytes };
    let none = Seq::<DispatchView>::empty();
    assert(payloads_to(none, sink) =~= Seq::<Seq<u8>>::empty()) by {
        reveal(Seq::filter);
    }
    payloads_after_send(none, output, sink);
    payloads_after_send(none.push(output), multicast, sink);
    payloads_after_send(none.push(output).push(multicast), unicast, sink);
    assert(seq![output, multicast] =~= none.push(output).push(multicast));
    assert(seq![output, multicast, unicast] =~= none.push(output).push(multicast).push(unicast));
}

/// Decides the sends for one entry taken from the queue.
pub fn route(entry: &QueueEntry) -> (sends: Vec<Dispatch>)
    ensures
        sends.deep_view() == dispatches(entry@),
{
    let mut sends: Vec<Dispatch> = Vec::new();
    sends.push(Dispatch { sink: Sink::Output, payload: entry.message.clone() });
    sends.push(Dispatch { sink: Sink::Multicast, payload: entry.message.clone() });
    if entry.is_local() {
        sends.push(Dispatch { sink: Sink::Unicast, payload: entry.message.clone() });
    }
    sends
}

/// Decides the sends for a batch of entries, taken in queue order.
pub fn route_queue(entries: &Vec<QueueEntry>) -> (sends: Vec<Dispatch>)
    ensures
        sends.deep_view() == trace(entries.deep_view()),
{
    let mut sends: Vec<Dispatch> = Vec::new();
    let mut done: usize = 0;
    while done < entries.len()
        invariant
            done <= entries.len(),
            sends.deep_view() == trace(entries.deep_view().take(done as int)),
        decreases entries.len() - done,
    {
        let mut next = route(&entries[done]);
        sends.append(&mut next);
        done = done + 1;
        proof {
            let queue = entries.deep_view();
            assert(queue.take(done as int).drop_last() =~= queue.take(done - 1));
        }
    }
    assert(entries.deep_view().take(done as int) =~= entries.deep_view());
    sends
}

/// The router keeps no memory between entries: the sends for two queues laid
/// end to end are the sends for the first followed by those for the second.
pub proof fn trace_of_concatenation(front: Seq<EntryView>, back: Seq<EntryView>)
    ensures
        trace(front + back) == trace(front) + trace(back),
    decreases back.len(),
{
    if back.len() == 0 {
        assert(front + back =~= front);
    } else {
        trace_of_concatenation(front, back.drop_last());
        assert((front + back).drop_last() =~= front + back.drop_last());
    }
}

/// A message from a local port is sent to every sink, to each exactly once.
pub proof fn local_entry_reaches_every_sink_once(entry: EntryView, sink: Sink)
    requires
        entry.origin == Origin::Local,
    ensures
        payloads_to(dispatches(entry), sink) == seq![entry.bytes],
{
    payloads_of_entry(entry, sink);
}

/// A message from the network is sent to the local output and to the
/// multicast group, to each exactly once, and never back to the peer.
pub proof fn remote_entry_never_returns_to_peer(entry: EntryView)
    requires
        entry.origin == Origin::Remote,
    ensures
        payloads_to(dispatches(entry), Sink::Output) == seq![entry.bytes],
        payloads_to(dispatches(entry), Sink::Multicast) == seq![entry.bytes],
        payloads_to(dispatches(entry), Sink::Unicast) == Seq::<Seq<u8>>::empty(),
{
    payloads_of_entry(entry, Sink::Output);
    payloads_of_entry(entry, Sink::Multicast);
    payloads_of_entry(entry, Sink::Unicast);
}

/// The local output and the multicast group each get every message of the
/// queue, once and in the order of arrival.
pub proof fn every_message_replayed_in_arrival_order(queue: Seq<EntryView>, sink: Sink)
    requires
        sink != Sink::Unicast,
    ensures
        payloads_to(trace(queue), sink) == messages(queue),
    decreases queue.len(),
{
    if queue.len() == 0 {
        assert(payloads_to(trace(queue), sink) =~= messages(queue)) by {
            reveal(Seq::filter);
        }
    } else {
        every_message_replayed_in_arrival_order(queue.drop_last(), sink);
        payloads_of_concatenation(trace(queue.drop_last()), dispatches(queue.last()), sink);
        payloads_of_entry(queue.last(), sink);
    }
}

/// The peer gets the messages of the local entries, once each and in the
/// order of arrival, and nothing else: no message from the network goes back.
pub proof fn peer_gets_local_messages_in_arrival_order(queue: Seq<EntryView>)
    ensures
        payloads_to(trace(queue), Sink::Unicast) == messages_from(queue, Origin::Local),
    decreases queue.len(),
{
    reveal(Seq::filter);
    if queue.len() > 0 {
        let earlier = queue.drop_last();
        peer_gets_local_messages_in_arrival_order(earlier);
        payloads_of_concatenation(trace(earlier), dispatches(queue.last()), Sink::Unicast);
        payloads_of_entry(queue.last(), Sink::Unicast);
    }
}

/// Loop prevention between two bridges: of what one bridge sends to its
/// peer, the peer sends nothing back, whatever the first one's queue held.
pub proof fn peer_does_not_echo(queue: Seq<EntryView>)
    ensures
        payloads_to(trace(arrivals(payloads_to(trace(queue), Sink::Unicast))), Sink::Unicast)
            == Seq::<Seq<u8>>::empty(),
{
    let received = arrivals(payloads_to(trace(queue), Sink::Unicast));
    let is_local = |entry: EntryView| entry.origin == Origin::Local;
    peer_gets_local_messages_in_arrival_order(received);
    assert(received.filter(is_local).len() == 0) by {
        if received.filter(is_local).len() > 0 {
            received.lemma_filter_pred(is_local, 0);
            received.lemma_filter_contains_rev(is_local, received.filter(is_local)[0]);
        }
    }
}

/// From one bridge to the other: the peer plays on its local output the
/// messages of the first bridge's local ports, once each and in the order in
/// which they were queued there.
pub proof fn local_messages_play_at_the_peer(queue: Seq<EntryView>)
    ensures
        payloads_to(trace(arrivals(payloads_to(trace(queue), Sink::Unicast))), Sink::Output)
            == messages_from(queue, Origin::Local),
{
    let sent = payloads_to(trace(queue), Sink::Unicast);
    peer_gets_local_messages_in_arrival_order(queue);
    every_message_replayed_in_arrival_order(arrivals(sent), Sink::Output);
}

} // verus!
