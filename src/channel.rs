//! One-shot channels of tokio, used for acknowledgments and for cancelling
//! click tasks.
use vstd::prelude::*;

verus! {

#[verifier::external_type_specification]
#[verifier::external_body]
#[verifier::reject_recursive_types(T)]
pub struct ExOneshotSender<T>(tokio::sync::oneshot::Sender<T>);

#[verifier::external_type_specification]
#[verifier::external_body]
#[verifier::reject_recursive_types(T)]
pub struct ExOneshotReceiver<T>(tokio::sync::oneshot::Receiver<T>);

#[verifier::external_type_specification]
#[verifier::external_body]
pub struct ExRecvError(tokio::sync::oneshot::error::RecvError);

/// Relies on tokio::sync::oneshot::channel: a fresh sender/receiver pair.
#[verifier::external_body]
pub(crate) fn oneshot_pair() -> (r: (
    tokio::sync::oneshot::Sender<bool>,
    tokio::sync::oneshot::Receiver<bool>,
)) {
    tokio::sync::oneshot::channel()
}

/// Relies on tokio::sync::oneshot::Sender::send: consumes the sender and hands
/// the value to the receiver if it is still alive; a dropped receiver is not
/// an error here.
#[verifier::external_body]
pub(crate) fn oneshot_send(tx: tokio::sync::oneshot::Sender<bool>, value: bool) {
    let _ = tx.send(value);
}

} // verus!
