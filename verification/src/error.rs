//! The errors that the framework hands to its callers.
use vstd::prelude::*;
use vstd::std_specs::convert::FromSpecImpl;

verus! {

/// What can go wrong for a caller of the framework.
#[derive(Debug)]
pub enum Error {
    /// An operation on a socket failed; the accept loop ends with this when
    /// accepting itself fails.
    IOError(std::io::Error),
    /// The task that ran the accept loop was cancelled or panicked.
    JoinError(tokio::task::JoinError),
    /// The server was asked to start while it held no listening socket: it was
    /// started before.
    NotListenerError,
    /// The peer was asked to write after it had been disconnected.
    ConnectionReset,
    /// The peer was asked to send an empty buffer.
    EmptyBuffer,
}

impl From<std::io::Error> for Error {
    fn from(e: std::io::Error) -> (r: Error) {
        Error::IOError(e)
    }
}

impl FromSpecImpl<std::io::Error> for Error {
    open spec fn obeys_from_spec() -> bool {
        true
    }

    open spec fn from_spec(e: std::io::Error) -> Error {
        Error::IOError(e)
    }
}

impl From<tokio::task::JoinError> for Error {
    fn from(e: tokio::task::JoinError) -> (r: Error) {
        Error::JoinError(e)
    }
}

impl FromSpecImpl<tokio::task::JoinError> for Error {
    open spec fn obeys_from_spec() -> bool {
        true
    }

    open spec fn from_spec(e: tokio::task::JoinError) -> Error {
        Error::JoinError(e)
    }
}

} // verus!
