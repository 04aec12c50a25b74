//! The one-shot shutdown channel, taken from `tokio::sync::oneshot`.
//!
//! Both halves are opaque to the verifier: it sees no field of either, only
//! that a value stays the same value when it is moved. Nothing in this file
//! is proved; each item states what is taken on trust from tokio.

use vstd::prelude::*;

verus! {

/// `tokio::sync::oneshot::Sender`, the half that requests termination.
/// Dropping it unsent also ends the wait of the other half.
#[verifier::external_type_specification]
#[verifier::external_body]
#[verifier::reject_recursive_types(T)]
pub struct ExSender<T>(tokio::sync::oneshot::Sender<T>);

/// `tokio::sync::oneshot::Receiver`, the half that a server task awaits.
#[verifier::external_type_specification]
#[verifier::external_body]
#[verifier::reject_recursive_types(T)]
pub struct ExReceiver<T>(tokio::sync::oneshot::Receiver<T>);

/// `tokio::sync::oneshot::error::RecvError`, what awaiting a receiver yields
/// when its sender was dropped without sending. Declared because the
/// receiver's `Future` impl names it.
#[verifier::external_type_specification]
#[verifier::external_body]
pub struct ExRecvError(tokio::sync::oneshot::error::RecvError);

/// `tokio::sync::oneshot::channel` returns the two halves of a fresh channel.
/// Nothing is claimed of them.
pub assume_specification<T>[ tokio::sync::oneshot::channel::<T> ]() -> (pair: (
    tokio::sync::oneshot::Sender<T>,
    tokio::sync::oneshot::Receiver<T>,
));

/// `tokio::sync::oneshot::Sender::send` consumes the sender and returns at
/// once. Whether it succeeds depends on whether the receiving half is still
/// there, which nothing here can predict; the one claim is that a failed
/// send hands the value back.
pub assume_specification<T>[ tokio::sync::oneshot::Sender::<T>::send ](
    sender: tokio::sync::oneshot::Sender<T>,
    t: T,
) -> (sent: Result<(), T>)
    ensures
        sent matches Err(back) ==> back == t,
;

} // verus!
