//! The network receiver: what becomes of each outcome of a receive on the
//! peer socket.

use vstd::prelude::*;
use vstd::slice::slice_subrange;
use crate::message::{EntryView, Origin, QueueEntry};

verus! {

/// Size of the buffer that a datagram is received into. A longer datagram
/// does not fit and reaches the queue cut down to this length at most.
pub const RECEIVE_BUFFER_LEN: usize = 64;

/// What the receive loop does next.
#[derive(Debug, PartialEq, Eq)]
pub enum ReceiverStep {
    /// Push this entry onto the queue and receive again.
    Enqueue(QueueEntry),
    /// Leave the loop: the socket failed, and the network path ends here.
    Stop,
}

/// Decides the next step of the receive loop from the outcome of one
/// receive: `received` is the number of bytes written to the front of
/// `buffer`, or `None` where the receive failed.
///
/// Every datagram is queued as it came, an empty one too.
pub fn on_receive(buffer: &[u8], received: Option<usize>) -> (step: ReceiverStep)
    requires
        received matches Some(n) ==> n <= buffer@.len(),
    ensures
        received matches Some(n) ==> (step matches ReceiverStep::Enqueue(entry) && entry@ == (
        EntryView { bytes: buffer@.subrange(0, n as int), origin: Origin::Remote })),
        received is None ==> step is Stop,
{
    match received {
        Some(n) => ReceiverStep::Enqueue(QueueEntry::remote(slice_subrange(buffer, 0, n))),
        None => ReceiverStep::Stop,
    }
}

} // verus!
