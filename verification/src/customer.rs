//! The requesting side: a [`Customer`] registers interest in the next value
//! and waits on a single-use slot of its own.

use vstd::prelude::*;
use vstd::rwlock::RwLock;

use crate::errors::RequestError;
use crate::slot::{new_slot, wait_on};
use crate::waiters::{registry_inv, share_registry, Registry, Waiters};

verus! {

/// What a request's wait comes to, for each outcome of its slot: a delivered
/// value is handed through as it is, abandonment is reported as `Recv`.
pub fn settle<T>(outcome: Result<T, onetime::RecvError>) -> (r: Result<T, RequestError>)
    ensures
        outcome matches Ok(value) ==> r == Ok::<T, RequestError>(value),
        outcome is Err ==> r == Err::<T, RequestError>(RequestError::Recv),
{
    match outcome {
        Ok(value) => Ok(value),
        Err(e) => Err(RequestError::from(e)),
    }
}

/// Waits on a slot's receiving half: the delivered value, or `Recv` when the
/// slot was abandoned, its sending half dropped without ever sending.
pub fn redeem<T>(rx: onetime::Receiver<T>) -> (r: Result<T, RequestError>)
    ensures
        r is Err ==> r == Err::<T, RequestError>(RequestError::Recv),
{
    settle(wait_on(rx))
}

/// A handle that can request a resource from the vendor it is bound to.
/// Clones are independent customers sharing the same waiting pool.
#[verifier::reject_recursive_types(T)]
pub struct Customer<T> {
    waiters: Registry<T>,
}

impl<T> Customer<T> {
    /// The registry this handle points at.
    pub closed spec fn registry(&self) -> RwLock<Waiters<T>, spec_fn(Waiters<T>) -> bool> {
        *self.waiters
    }

    #[verifier::type_invariant]
    spec fn wf(&self) -> bool {
        self.registry().pred() == registry_inv::<T>()
    }

    pub(crate) fn bound_to(waiters: Registry<T>) -> (c: Self)
        requires
            (*waiters).pred() == registry_inv::<T>(),
        ensures
            c.registry() == *waiters,
    {
        Customer { waiters }
    }

    /// Registers interest: builds a fresh delivery slot, queues its sending
    /// half at the back of the shared registry, and returns the receiving
    /// half to wait on. Registration always succeeds, because nothing in
    /// this crate closes the registry's queue; a refused registration would
    /// be reported as `Err(Push)`.
    pub fn register(&self) -> (r: Result<onetime::Receiver<T>, RequestError>)
        ensures
            r is Ok,
    {
        proof {
            use_type_invariant(self);
        }
        let (tx, rx) = new_slot::<T>();
        let (mut pool, handle) = self.waiters.acquire_write();
        let pushed = pool.enqueue(tx);
        handle.release_write(pool);
        match pushed {
            Ok(()) => Ok(rx),
            Err(e) => Err(RequestError::from(e)),
        }
    }

    /// Queues up for a resource and waits until one is delivered (`Ok`) or
    /// the slot is abandoned (`Err(Recv)`). This is the only call here that
    /// suspends the caller.
    pub fn request(&self) -> (r: Result<T, RequestError>)
        ensures
            r is Err ==> r == Err::<T, RequestError>(RequestError::Recv),
    {
        match self.register() {
            Ok(rx) => redeem(rx),
            Err(e) => Err(e),
        }
    }
}

impl<T> Clone for Customer<T> {
    /// The clone is an independent customer bound to the same registry.
    fn clone(&self) -> (c: Self)
        ensures
            c.registry() == self.registry(),
    {
        proof {
            use_type_invariant(self);
        }
        Customer { waiters: share_registry(&self.waiters) }
    }
}

} // verus!
