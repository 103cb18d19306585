//! The per-connection peer: the remote address and the write half of the
//! connection, which is present exactly while the peer is connected.
use crate::addr::SocketAddress;
use crate::error::Error;
use tokio::io::WriteHalf;
use vstd::prelude::*;

verus! {

/// One accepted connection, seen from the side that writes to it.
///
/// The peer owns the write half of the connection's stream until it is
/// disconnected; from then on it owns none and never gets one again. Every
/// operation that changes the peer takes it by `&mut`, so two of them cannot
/// overlap on one peer.
#[verifier::reject_recursive_types(T)]
pub struct TCPPeer<T> {
    addr: SocketAddress,
    sender: Option<WriteHalf<T>>,
}

/// What a peer is: the address of the remote end, and the write half that the
/// peer owns while it is connected.
#[verifier::reject_recursive_types(T)]
pub ghost struct PeerState<T> {
    pub addr: SocketAddress,
    pub sender: Option<WriteHalf<T>>,
}

impl<T> PeerState<T> {
    /// A peer is connected exactly while it owns its write half.
    pub open spec fn connected(self) -> bool {
        self.sender is Some
    }

    /// The state that a disconnect leaves: the same address, no write half.
    pub open spec fn disconnect(self) -> Self {
        PeerState { addr: self.addr, sender: None }
    }

    /// The state after `n` disconnects in a row.
    pub open spec fn disconnect_times(self, n: nat) -> Self
        decreases n,
    {
        if n == 0 {
            self
        } else {
            self.disconnect().disconnect_times((n - 1) as nat)
        }
    }
}

/// Why a write of `len` bytes is refused before anything is written: the peer
/// was disconnected, or, for a write that must not be empty, there is nothing
/// to write. A disconnected peer refuses with `ConnectionReset` whatever the
/// buffer holds.
pub open spec fn refusal(connected: bool, must_hold_bytes: bool, len: nat) -> Option<Error> {
    if !connected {
        Some(Error::ConnectionReset)
    } else if must_hold_bytes && len == 0 {
        Some(Error::EmptyBuffer)
    } else {
        None
    }
}

impl<T> View for TCPPeer<T> {
    type V = PeerState<T>;

    closed spec fn view(&self) -> PeerState<T> {
        PeerState { addr: self.addr, sender: self.sender }
    }
}

impl<T> TCPPeer<T> {
    /// A connected peer for the connection from `addr`, writing to `sender`.
    pub fn new(addr: SocketAddress, sender: WriteHalf<T>) -> (peer: Self)
        ensures
            peer@ == (PeerState { addr, sender: Some(sender) }),
    {
        TCPPeer { addr, sender: Some(sender) }
    }

    /// The remote address that the peer was made with.
    pub fn addr(&self) -> (addr: SocketAddress)
        ensures
            addr == self@.addr,
    {
        self.addr
    }

    /// Whether the peer has been disconnected.
    pub fn is_disconnect(&self) -> (gone: bool)
        ensures
            gone == !self@.connected(),
    {
        self.sender.is_none()
    }

    /// Admits one write of `buff`, as many bytes of it as the transport takes
    /// at once: hands out the write half to write to. A disconnected peer
    /// refuses with `ConnectionReset`, a connected one refuses an empty
    /// buffer with `EmptyBuffer`; a refusal leaves the peer as it was.
    pub fn send<'a>(&'a mut self, buff: &[u8]) -> (r: Result<&'a mut WriteHalf<T>, Error>)
        ensures
            final(self)@.addr == old(self)@.addr,
            r.err() == refusal(old(self)@.connected(), true, buff@.len()),
            r is Err ==> final(self)@ == old(self)@,
            r matches Ok(sender) ==> Some(*sender) == old(self)@.sender
                && final(self)@.sender == Some(*final(sender)),
    {
        if buff.len() == 0 && self.sender.is_some() {
            return Err(Error::EmptyBuffer);
        }
        match &mut self.sender {
            Some(sender) => Ok(sender),
            None => Err(Error::ConnectionReset),
        }
    }

    /// Admits the write of the whole of `buff`, followed by a flush: hands out
    /// the write half to write to. A disconnected peer refuses with
    /// `ConnectionReset` and stays as it was. An empty buffer is admitted.
    pub fn send_all<'a>(&'a mut self, buff: &[u8]) -> (r: Result<&'a mut WriteHalf<T>, Error>)
        ensures
            final(self)@.addr == old(self)@.addr,
            r.err() == refusal(old(self)@.connected(), false, buff@.len()),
            r is Err ==> final(self)@ == old(self)@,
            r matches Ok(sender) ==> Some(*sender) == old(self)@.sender
                && final(self)@.sender == Some(*final(sender)),
    {
        match &mut self.sender {
            Some(sender) => Ok(sender),
            None => Err(Error::ConnectionReset),
        }
    }

    /// Admits a flush: hands out the write half to flush. A disconnected peer
    /// refuses with `ConnectionReset` and stays as it was.
    pub fn flush<'a>(&'a mut self) -> (r: Result<&'a mut WriteHalf<T>, Error>)
        ensures
            final(self)@.addr == old(self)@.addr,
            r.err() == refusal(old(self)@.connected(), false, 0),
            r is Err ==> final(self)@ == old(self)@,
            r matches Ok(sender) ==> Some(*sender) == old(self)@.sender
                && final(self)@.sender == Some(*final(sender)),
    {
        match &mut self.sender {
            Some(sender) => Ok(sender),
            None => Err(Error::ConnectionReset),
        }
    }

    /// Disconnects the peer: takes the write half away from it and hands it
    /// out to be shut down. On a peer that was disconnected before there is
    /// nothing to hand out, and nothing changes.
    pub fn disconnect(&mut self) -> (taken: Option<WriteHalf<T>>)
        ensures
            taken == old(self)@.sender,
            final(self)@ == old(self)@.disconnect(),
    {
        self.sender.take()
    }
}

/// What a disconnect answers its caller once the write half that it took, if
/// it took one, has been shut down: success, whatever the shutdown gave. The
/// second part is the failure of the shutdown, which is kept for the log and
/// goes no further.
pub fn teardown(shutdown: Option<Result<(), std::io::Error>>) -> (r: (
    Result<(), Error>,
    Option<std::io::Error>,
))
    ensures
        r.0 == Ok::<(), Error>(()),
        r.1 == (match shutdown {
            Some(Err(e)) => Some(e),
            _ => None,
        }),
{
    match shutdown {
        Some(Err(e)) => (Ok(()), Some(e)),
        _ => (Ok(()), None),
    }
}

/// Disconnecting is idempotent: after one disconnect or after many the peer is
/// in the same state, it is disconnected, and it has the address it had.
pub proof fn disconnect_is_idempotent<T>(peer: PeerState<T>, n: nat)
    requires
        n >= 1,
    ensures
        peer.disconnect_times(n) == peer.disconnect(),
        !peer.disconnect_times(n).connected(),
        peer.disconnect_times(n).addr == peer.addr,
    decreases n,
{
    if n > 1 {
        disconnect_is_idempotent(peer.disconnect(), (n - 1) as nat);
    } else {
        assert(peer.disconnect().disconnect_times(0) == peer.disconnect());
    }
}

/// A disconnect on a peer that was disconnected before changes nothing.
pub proof fn disconnect_again_changes_nothing<T>(peer: PeerState<T>)
    requires
        !peer.connected(),
    ensures
        peer.disconnect() == peer,
{
}

/// After a disconnect every write and every flush is refused with
/// `ConnectionReset`, whatever the buffer.
pub proof fn disconnected_peer_refuses<T>(peer: PeerState<T>, must_hold_bytes: bool, len: nat)
    ensures
        refusal(peer.disconnect().connected(), must_hold_bytes, len) == Some(
            Error::ConnectionReset,
        ),
{
}

} // verus!
