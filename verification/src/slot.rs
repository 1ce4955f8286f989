//! The single-use delivery slot: a bound pair of one sending half and one
//! receiving half, carrying at most one value ever.
//!
//! The pair itself comes from the `onetime` channel crate; the functions here
//! are the trusted boundary around it.

use vstd::prelude::*;

use crate::errors::SendError;

verus! {

#[verifier::external_type_specification]
#[verifier::external_body]
#[verifier::reject_recursive_types(T)]
pub struct ExSender<T>(onetime::Sender<T>);

#[verifier::external_type_specification]
#[verifier::external_body]
#[verifier::reject_recursive_types(T)]
pub struct ExReceiver<T>(onetime::Receiver<T>);

#[verifier::external_type_specification]
#[verifier::external_body]
pub struct ExRecvError(onetime::RecvError);

/// Relies on `onetime::channel`: returns a freshly bound pair of one sending
/// and one receiving half, through which at most one value ever flows.
#[verifier::external_body]
pub(crate) fn new_slot<T>() -> (onetime::Sender<T>, onetime::Receiver<T>) {
    onetime::channel()
}

/// Relies on `onetime::Sender::send`: consumes the sending half; the value
/// reaches the paired receiving half, unless that half was already dropped,
/// which is reported (and the value discarded) rather than propagated.
#[verifier::external_body]
pub(crate) fn offer<T>(tx: onetime::Sender<T>, value: T) -> (r: Result<(), SendError>) {
    match tx.send(value) {
        Ok(()) => Ok(()),
        Err(_) => Err(SendError),
    }
}

/// Relies on `onetime::Receiver::recv_blocking`: waits until the paired
/// sending half delivers a value (returned as `Ok`) or is dropped without
/// having sent one (reported as `Err`).
#[verifier::external_body]
pub(crate) fn wait_on<T>(rx: onetime::Receiver<T>) -> (r: Result<T, onetime::RecvError>) {
    rx.recv_blocking()
}

} // verus!
