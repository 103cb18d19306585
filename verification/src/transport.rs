//! The types of tokio and of std that the framework carries without looking
//! inside them, and the one std call that it makes on a shared handle.
use std::sync::Arc;
use vstd::prelude::*;

verus! {

/// `tokio::io::WriteHalf`: the writable half of a split duplex stream. Nothing
/// is claimed of what it holds.
#[verifier::external_type_specification]
#[verifier::external_body]
#[verifier::reject_recursive_types(T)]
pub struct ExWriteHalf<T>(tokio::io::WriteHalf<T>);

/// `tokio::net::TcpListener`: a bound listening socket. Nothing is claimed of
/// what it holds.
#[verifier::external_type_specification]
#[verifier::external_body]
pub struct ExTcpListener(tokio::net::TcpListener);

/// `tokio::task::JoinError`: why a spawned task did not run to its end.
/// Nothing is claimed of what it holds.
#[verifier::external_type_specification]
#[verifier::external_body]
pub struct ExJoinError(tokio::task::JoinError);

/// `std::io::Error`: the failure of an I/O operation. Nothing is claimed of
/// what it holds.
#[verifier::external_type_specification]
#[verifier::external_body]
pub struct ExIoError(std::io::Error);

/// `Arc::clone`: a second handle to the same shared value. The contract claims
/// that the new handle stands for the value that the given one stands for,
/// which is what std documents of it; the value itself is not copied.
#[verifier::external_body]
pub(crate) fn share<X>(handle: &Arc<X>) -> (second: Arc<X>)
    ensures
        second == *handle,
{
    Arc::clone(handle)
}

} // verus!
