//! The keep-alive emitter: an empty datagram to the peer at a fixed pace, so
//! that the NAT devices and firewalls on the way keep their state.

use vstd::prelude::*;

verus! {

/// Seconds between two keep-alive datagrams.
pub const KEEP_ALIVE_INTERVAL_SECS: u64 = 10;

/// The payload of a keep-alive datagram: nothing.
pub fn keep_alive_datagram() -> (datagram: Vec<u8>)
    ensures
        datagram@ == Seq::<u8>::empty(),
{
    Vec::new()
}

} // verus!
