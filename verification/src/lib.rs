//! The routing core of a bridge between the MIDI ports of a host and a UDP
//! peer.
//!
//! Listeners on the local input ports and a receiver on the peer socket feed
//! one queue; a single router takes the entries in the order of arrival and
//! replays each to the local output port and to a multicast group, and to the
//! peer as well where it came from a local port. A message that came from the
//! peer is never sent back to it, so nothing bounces between two bridges.
//!
//! This library decides and does no I/O: it is handed port names, buffers and
//! queue entries, and says which ports get a listener, what is queued and
//! which sends are made. The program around it owns the devices, the sockets
//! and the threads.
//!
//! - [`message`]: queue entries and their origin
//! - [`discovery`]: which input ports get a listener, which output port plays
//! - [`receiver`]: from the outcome of a receive to a queue entry
//! - [`keep_alive`]: the datagram that keeps the path to the peer open
//! - [`router`]: from queue entries to sends, and what holds of them
//! - [`endpoint`]: socket addresses as text

pub mod discovery;
pub mod endpoint;
pub mod keep_alive;
pub mod message;
pub mod receiver;
pub mod router;
