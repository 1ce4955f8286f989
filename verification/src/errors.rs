use vstd::prelude::*;

verus! {

/// Why a [`crate::Customer`] request failed.
#[derive(Clone, Copy, Debug, PartialEq, Eq, Structural)]
pub enum RequestError {
    /// The shared registry refused the registration because its queue was
    /// closed. The handles of this crate never close the queue, so none of
    /// their calls produces this variant; it is kept as a distinguishable,
    /// reported condition of the underlying queue.
    Push,
    /// The registered slot was abandoned: its sending half was dropped
    /// without ever delivering a value.
    Recv,
}

/// A delivery attempt found the receiving half of the slot already dropped.
///
/// A vendor swallows this outcome slot by slot, so it never surfaces
/// through the vendor's own calls; only the delivery attempt itself
/// reports it.
#[derive(Clone, Copy, Debug, PartialEq, Eq, Structural)]
pub struct SendError;

impl<T> From<concurrent_queue::PushError<T>> for RequestError {
    /// Every failure to enqueue counts as a refused registration.
    fn from(refused: concurrent_queue::PushError<T>) -> (r: Self) {
        RequestError::Push
    }
}

impl<T> vstd::std_specs::convert::FromSpecImpl<concurrent_queue::PushError<T>> for RequestError {
    open spec fn obeys_from_spec() -> bool {
        true
    }

    open spec fn from_spec(t: concurrent_queue::PushError<T>) -> RequestError {
        RequestError::Push
    }
}

impl From<onetime::RecvError> for RequestError {
    /// A receiving half that reports a closed channel was abandoned.
    fn from(closed: onetime::RecvError) -> (r: Self) {
        RequestError::Recv
    }
}

impl vstd::std_specs::convert::FromSpecImpl<onetime::RecvError> for RequestError {
    open spec fn obeys_from_spec() -> bool {
        true
    }

    open spec fn from_spec(t: onetime::RecvError) -> RequestError {
        RequestError::Recv
    }
}

} // verus!
