//! One accepted connection on its way from the accept loop to the input
//! handler.
use crate::addr::SocketAddress;
use crate::peer::{PeerState, TCPPeer};
use crate::tcpserver::{AcceptLoop, AcceptStep};
use std::sync::Arc;
use tokio::io::WriteHalf;
use vstd::prelude::*;

verus! {

/// A connection that the accept loop has admitted: the raw stream as it was
/// accepted, the remote address taken at accept time, and the negotiator and
/// the input handler that its task will run.
pub struct Connection<S, I, IST> {
    pub socket: S,
    pub addr: SocketAddress,
    pub stream_init: Arc<IST>,
    pub input_event: Arc<I>,
}

/// How the negotiation of a connection's transport ended.
#[verifier::reject_recursive_types(C)]
pub enum Negotiated<R, C, E> {
    /// The transport stands. The read half goes to the input handler, which
    /// alone reads from it; the peer owns the write half.
    Established { reader: R, peer: TCPPeer<C> },
    /// The negotiation failed. The connection from `addr` ends here, with no
    /// peer and nothing for the input handler.
    Failed { addr: SocketAddress, error: E },
}

/// `ended` is how the negotiation for the connection from `addr` ends on
/// `outcome`: on success with the read half as it came and a connected peer
/// made from the address and the write half, on failure with the address and
/// the error, and no peer.
pub open spec fn ends_as<R, C, E>(
    addr: SocketAddress,
    outcome: Result<(R, WriteHalf<C>), E>,
    ended: Negotiated<R, C, E>,
) -> bool {
    match outcome {
        Ok((reader, sender)) => ended matches Negotiated::Established { reader: handed, peer }
            && handed == reader && peer@ == (PeerState { addr, sender: Some(sender) }),
        Err(error) => ended == (Negotiated::<R, C, E>::Failed { addr, error }),
    }
}

/// Takes the outcome of the negotiation for the connection from `addr`, with
/// the negotiated stream already split in its two halves. On success the peer
/// is made from the address and the write half, connected. On failure there is
/// no peer: the error is handed back with the address, for the log.
pub fn negotiated<R, C, E>(addr: SocketAddress, outcome: Result<(R, WriteHalf<C>), E>) -> (ended:
    Negotiated<R, C, E>)
    ensures
        ends_as(addr, outcome, ended),
{
    match outcome {
        Ok((reader, sender)) => Negotiated::Established { reader, peer: TCPPeer::new(addr, sender) },
        Err(error) => Negotiated::Failed { addr, error },
    }
}

/// Ends a connection once its input handler has returned. Whether the handler
/// succeeded or failed, the peer is disconnected, once: its write half, if it
/// still has one, is handed out to be shut down. The handler's error, if there
/// is one, is handed back for the log.
pub fn finish<C, E>(peer: &mut TCPPeer<C>, handled: Result<(), E>) -> (r: (
    Option<WriteHalf<C>>,
    Option<E>,
))
    ensures
        final(peer)@ == old(peer)@.disconnect(),
        r.0 == old(peer)@.sender,
        r.1 == handled.err(),
{
    let taken = peer.disconnect();
    match handled {
        Ok(()) => (taken, None),
        Err(error) => (taken, Some(error)),
    }
}

/// The peer of an established connection has the address that the accept loop
/// took with the connection.
pub proof fn peer_has_accepted_address<S, R, C, E, I, IST, F: Fn(SocketAddress) -> bool>(
    running: AcceptLoop<I, IST, F>,
    socket: S,
    addr: SocketAddress,
    halves: (R, WriteHalf<C>),
    ended: Negotiated<R, C, E>,
)
    requires
        running.step(Ok((socket, addr)), true) matches AcceptStep::Serve(connection) && ends_as(
            connection.addr,
            Ok(halves),
            ended,
        ),
    ensures
        ended matches Negotiated::Established { peer, .. } && peer@.addr == addr && peer@.connected(),
{
}

/// A failed negotiation ends its own connection and nothing else. It leaves no
/// peer and nothing to hand to the input handler; and the accept loop, which
/// takes no part in a negotiation, serves the next connection that its filter
/// admits as it would have served it before.
pub proof fn failed_negotiation_is_contained<S, R, C, E, I, IST, F: Fn(SocketAddress) -> bool>(
    running: AcceptLoop<I, IST, F>,
    failed: Connection<S, I, IST>,
    error: E,
    ended: Negotiated<R, C, E>,
    next_socket: S,
    next_addr: SocketAddress,
)
    requires
        ends_as(failed.addr, Err(error), ended),
    ensures
        ended == (Negotiated::<R, C, E>::Failed { addr: failed.addr, error }),
        running.step(Ok((next_socket, next_addr)), true) == AcceptStep::Serve(
            Connection {
                socket: next_socket,
                addr: next_addr,
                stream_init: running.stream_init,
                input_event: running.input_event,
            },
        ),
{
}

} // verus!
