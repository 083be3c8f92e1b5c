//! The cancellation token of a request.
//!
//! A token is a one-shot channel that never carries a value. The scheduler
//! keeps the sending half for as long as the request is wanted; the tasks of
//! the request race their work against the receiving half. Dropping the
//! sender is the cancellation signal.

use vstd::prelude::*;

verus! {

#[verifier::external_type_specification]
#[verifier::external_body]
#[verifier::reject_recursive_types(T)]
pub struct ExOneshotSender<T>(tokio::sync::oneshot::Sender<T>);

#[verifier::external_type_specification]
#[verifier::external_body]
#[verifier::reject_recursive_types(T)]
pub struct ExOneshotReceiver<T>(tokio::sync::oneshot::Receiver<T>);

// The receiver is a future whose output names this error, so the verifier
// asks for the type wherever the receiver stands in a signature.
#[verifier::external_type_specification]
#[verifier::external_body]
pub struct ExOneshotRecvError(tokio::sync::oneshot::error::RecvError);

/// The half of a token that the scheduler keeps. Dropping it cancels the request.
pub type CancelTx = tokio::sync::oneshot::Sender<()>;

/// The half of a token that the tasks of a request watch.
pub type CancelRx = tokio::sync::oneshot::Receiver<()>;

/// Calls `tokio::sync::oneshot::channel` for a channel of `()`.
///
/// Nothing is claimed of the two halves: they are opaque here.
#[verifier::external_body]
pub(crate) fn cancelation() -> (token: (CancelTx, CancelRx)) {
    tokio::sync::oneshot::channel::<()>()
}

/// Calls `tokio::sync::oneshot::Sender::is_closed`, which tells whether the
/// receiving half has been closed or dropped.
///
/// The answer depends on what the holders of the receiver have done since, so
/// nothing is claimed of it.
#[verifier::external_body]
pub(crate) fn is_closed(tx: &CancelTx) -> (closed: bool) {
    tx.is_closed()
}

} // verus!
