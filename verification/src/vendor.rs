//! The distributing side: a [`Vendor`] drains the shared registry and offers
//! the value to every slot found in the pass.

use vstd::prelude::*;
use vstd::rwlock::RwLock;

use crate::customer::Customer;
use crate::slot::offer;
use crate::waiters::{new_registry, registry_inv, share_registry, Registry, Waiters};

verus! {

/// Hands one clone of the resource to every drained slot, swallowing the
/// failures of single slots: a customer that cancelled mid-wait simply does
/// not receive its clone, and no error reaches the vendor. Returns how many
/// slots were offered the value, which is every one handed in.
pub fn deliver_to_all<T: Clone>(drained: Vec<onetime::Sender<T>>, resource: T) -> (offered: usize)
    ensures
        offered == drained@.len(),
{
    let total: usize = drained.len();
    let mut rest = drained;
    let mut offered: usize = 0;
    while rest.len() > 0
        invariant
            offered + rest@.len() == total,
        decreases rest@.len(),
    {
        let tx = rest.remove(0);
        let _ = offer(tx, resource.clone());
        offered = offered + 1;
    }
    offered
}

/// The handle that distributes values to the customers waiting right now.
/// A value sent while nobody waits is simply lost.
#[verifier::reject_recursive_types(T)]
pub struct Vendor<T> {
    waiters: Registry<T>,
}

impl<T> Vendor<T> {
    /// The registry this handle points at.
    pub closed spec fn registry(&self) -> RwLock<Waiters<T>, spec_fn(Waiters<T>) -> bool> {
        *self.waiters
    }

    #[verifier::type_invariant]
    spec fn wf(&self) -> bool {
        self.registry().pred() == registry_inv::<T>()
    }

    /// A vendor over a fresh, empty registry of its own.
    pub fn new() -> Self {
        Vendor { waiters: new_registry() }
    }

    /// A new customer bound to this vendor's registry.
    pub fn customer(&self) -> (c: Customer<T>)
        ensures
            c.registry() == self.registry(),
    {
        proof {
            use_type_invariant(self);
        }
        Customer::bound_to(share_registry(&self.waiters))
    }

    /// Sends the resource to the customers queued at the moment of the drain
    /// pass: every slot present then is offered one clone, no slot enqueued
    /// after the pass sees this value, and the registry is left empty. If no
    /// one is queued, the resource is dropped, which is the designed
    /// loss-when-idle behaviour, not an error. The call is total: failures of
    /// single slots are swallowed.
    pub fn send(&self, resource: T) where T: Clone {
        proof {
            use_type_invariant(self);
        }
        let (mut pool, handle) = self.waiters.acquire_write();
        let drained = pool.drain_once();
        handle.release_write(pool);
        deliver_to_all(drained, resource);
    }

    /// A snapshot of how many slots are queued right now. Purely advisory
    /// under concurrency: the count can change the instant after it is read,
    /// so it carries no contract a caller could rely on.
    pub fn waiters_count(&self) -> usize {
        let read = self.waiters.acquire_read();
        let n: usize = read.borrow().len();
        read.release_read();
        n
    }

    /// Whether anyone is queued right now; as advisory as [`Self::waiters_count`].
    pub fn has_waiters(&self) -> bool {
        self.waiters_count() > 0
    }
}

impl<T> Default for Vendor<T> {
    fn default() -> Self {
        Vendor::new()
    }
}

} // verus!
