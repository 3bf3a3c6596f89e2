use futures::channel::oneshot::{Canceled, Receiver, Sender};
use vstd::prelude::*;

verus! {

/// The sending half of a one-shot channel of the `futures` crate: the
/// single-use handle that completes one pending request. Opaque here.
#[verifier::external_type_specification]
#[verifier::external_body]
#[verifier::reject_recursive_types(T)]
pub struct ExSender<T>(Sender<T>);

/// The receiving half of a one-shot channel of the `futures` crate: what
/// the caller of a request waits on. Opaque here.
#[verifier::external_type_specification]
#[verifier::external_body]
#[verifier::reject_recursive_types(T)]
pub struct ExReceiver<T>(Receiver<T>);

/// The error of a one-shot receiver whose sender was dropped unused.
#[verifier::external_type_specification]
#[verifier::external_body]
pub struct ExCanceled(Canceled);

/// Calls `futures::channel::oneshot::channel`, which makes a connected
/// sender and receiver. Nothing is claimed of the pair.
#[verifier::external_body]
pub(crate) fn completion_pair<T>() -> (pair: (Sender<T>, Receiver<T>)) {
    futures::channel::oneshot::channel()
}

/// Calls `futures::channel::oneshot::Sender::send`, which consumes the
/// sender. Whether the value was accepted depends on whether the receiver
/// is still there, so only this is claimed: on failure the value handed in
/// is the value handed back.
#[verifier::external_body]
pub(crate) fn fulfil<T>(tx: Sender<T>, value: T) -> (sent: Result<(), T>)
    ensures
        sent matches Err(back) ==> back == value,
{
    tx.send(value)
}

/// Calls `futures::channel::oneshot::Receiver::try_recv`, which does not
/// block. What it returns depends on what the sender has done so far, so
/// nothing is claimed of the result.
#[verifier::external_body]
pub(crate) fn try_receive<T>(rx: &mut Receiver<T>) -> (received: Result<Option<T>, Canceled>) {
    rx.try_recv()
}

} // verus!
