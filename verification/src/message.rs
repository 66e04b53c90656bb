//! Messages and the origin tag that travels with them through the queue.

use vstd::prelude::*;
use vstd::slice::slice_to_vec;

verus! {

/// Where a queued message was first observed.
#[derive(Clone, Copy, Debug, PartialEq, Eq, Structural)]
pub enum Origin {
    /// Produced by a listener on a local input port.
    Local,
    /// Received from the network.
    Remote,
}

/// One element of the shared queue: the raw bytes of a message and its origin.
///
/// The bytes are never inspected; an empty message is an entry like any other.
#[derive(Debug, PartialEq, Eq)]
pub struct QueueEntry {
    pub message: Vec<u8>,
    pub origin: Origin,
}

/// What a [`QueueEntry`] stands for: a byte sequence and an origin.
pub struct EntryView {
    pub bytes: Seq<u8>,
    pub origin: Origin,
}

impl View for QueueEntry {
    type V = EntryView;

    open spec fn view(&self) -> EntryView {
        EntryView { bytes: self.message@, origin: self.origin }
    }
}

impl DeepView for QueueEntry {
    type V = EntryView;

    open spec fn deep_view(&self) -> EntryView {
        self@
    }
}

impl Clone for QueueEntry {
    fn clone(&self) -> (copy: QueueEntry)
        ensures
            copy@ == self@,
    {
        QueueEntry { message: self.message.clone(), origin: self.origin }
    }
}

impl QueueEntry {
    /// The entry for a message that a local input port delivered.
    pub fn local(message: &[u8]) -> (entry: QueueEntry)
        ensures
            entry@ == (EntryView { bytes: message@, origin: Origin::Local }),
    {
        QueueEntry { message: slice_to_vec(message), origin: Origin::Local }
    }

    /// The entry for a datagram that arrived from the network.
    pub fn remote(message: &[u8]) -> (entry: QueueEntry)
        ensures
            entry@ == (EntryView { bytes: message@, origin: Origin::Remote }),
    {
        QueueEntry { message: slice_to_vec(message), origin: Origin::Remote }
    }

    /// Whether the entry came from a local input port.
    pub fn is_local(&self) -> (local: bool)
        ensures
            local == (self@.origin == Origin::Local),
    {
        match self.origin {
            Origin::Local => true,
            Origin::Remote => false,
        }
    }
}

/// The messages of a queue, front first.
pub open spec fn messages(queue: Seq<EntryView>) -> Seq<Seq<u8>> {
    queue.map_values(|entry: EntryView| entry.bytes)
}

/// The messages of the entries of a queue that carry `origin`, front first.
pub open spec fn messages_from(queue: Seq<EntryView>, origin: Origin) -> Seq<Seq<u8>> {
    messages(queue.filter(|entry: EntryView| entry.origin == origin))
}

} // verus!
