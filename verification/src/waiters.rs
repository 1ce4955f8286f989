//! The shared waiting pool: an unbounded queue of delivery-slot senders.
//!
//! [`Waiters`] wraps the `concurrent_queue` crate's queue and carries a ghost
//! model of two things the queue itself cannot show the verifier: the
//! sequence of senders it holds, front first, and whether it is still open.
//! The trusted operations below keep the model in step with the queue; they
//! are the only code that touches either field.

use std::sync::Arc;

use vstd::prelude::*;
use vstd::rwlock::RwLock;

verus! {

/// The registry shared by one vendor and its customers: the waiting pool
/// behind a verified lock, under reference-counted ownership. It lives as
/// long as the longest-lived handle that points at it.
pub type Registry<T> = Arc<RwLock<Waiters<T>, spec_fn(Waiters<T>) -> bool>>;

/// The invariant every registry lock maintains: the pool inside stays open.
pub open spec fn registry_inv<T>() -> spec_fn(Waiters<T>) -> bool {
    |w: Waiters<T>| w.is_open()
}

#[verifier::external_type_specification]
#[verifier::external_body]
#[verifier::reject_recursive_types(T)]
pub struct ExConcurrentQueue<T>(concurrent_queue::ConcurrentQueue<T>);

#[verifier::external_type_specification]
#[verifier::external_body]
#[verifier::reject_recursive_types(T)]
pub struct ExPushError<T>(concurrent_queue::PushError<T>);

/// Relies on `ConcurrentQueue::unbounded`: the fresh queue holds nothing, is
/// open, and never refuses a push for lack of room.
#[verifier::external_body]
fn raw_unbounded<T>() -> concurrent_queue::ConcurrentQueue<T> {
    concurrent_queue::ConcurrentQueue::unbounded()
}

/// The registry of pending delivery slots, together with its model.
#[verifier::reject_recursive_types(T)]
pub struct Waiters<T> {
    queue: concurrent_queue::ConcurrentQueue<onetime::Sender<T>>,
    slots: Ghost<Seq<onetime::Sender<T>>>,
    open: Ghost<bool>,
}

impl<T> View for Waiters<T> {
    type V = Seq<onetime::Sender<T>>;

    /// The senders queued right now, front first.
    closed spec fn view(&self) -> Seq<onetime::Sender<T>> {
        self.slots@
    }
}

impl<T> Waiters<T> {
    /// Whether the queue still accepts registrations. Nothing in this crate
    /// closes the queue, so every registry stays open for its whole life.
    pub closed spec fn is_open(&self) -> bool {
        self.open@
    }

    /// An empty, open registry. The model starts as the fresh queue does:
    /// holding nothing, open.
    pub(crate) fn new() -> (w: Self)
        ensures
            w@ == Seq::<onetime::Sender<T>>::empty(),
            w.is_open(),
    {
        Waiters { queue: raw_unbounded(), slots: Ghost(Seq::empty()), open: Ghost(true) }
    }

    /// Relies on `ConcurrentQueue::push`: on an unbounded queue the item is
    /// appended at the back, and the push fails exactly when the queue has
    /// been closed, leaving the contents as they were.
    #[verifier::external_body]
    pub(crate) fn enqueue(&mut self, tx: onetime::Sender<T>) -> (r: Result<
        (),
        concurrent_queue::PushError<onetime::Sender<T>>,
    >)
        ensures
            r is Ok <==> old(self).is_open(),
            old(self).is_open() ==> final(self)@ == old(self)@.push(tx),
            !old(self).is_open() ==> final(self)@ == old(self)@,
            final(self).is_open() == old(self).is_open(),
    {
        self.queue.push(tx)
    }

    /// Relies on `ConcurrentQueue::pop`: removes and returns the item at the
    /// front; an empty queue (closed or not) is reported as `None`.
    #[verifier::external_body]
    pub(crate) fn pop_front(&mut self) -> (r: Option<onetime::Sender<T>>)
        ensures
            old(self)@.len() > 0 ==> r == Some(old(self)@[0]) && final(self)@ == old(
                self,
            )@.drop_first(),
            old(self)@.len() == 0 ==> r is None && final(self)@ == old(self)@,
            final(self).is_open() == old(self).is_open(),
    {
        match self.queue.pop() {
            Ok(tx) => Some(tx),
            Err(_) => None,
        }
    }

    /// Relies on `ConcurrentQueue::len`: the number of items queued right now.
    #[verifier::external_body]
    pub(crate) fn len(&self) -> (n: usize)
        ensures
            n == self@.len(),
    {
        self.queue.len()
    }

    /// One drain pass: removes and returns every slot currently queued, front
    /// first, leaving the registry empty.
    pub fn drain_once(&mut self) -> (drained: Vec<onetime::Sender<T>>)
        ensures
            drained@ == old(self)@,
            final(self)@.len() == 0,
            final(self).is_open() == old(self).is_open(),
    {
        let ghost start = self@;
        let ghost was_open = self.is_open();
        let mut drained: Vec<onetime::Sender<T>> = Vec::new();
        loop
            invariant
                start == drained@ + self@,
                self.is_open() == was_open,
            ensures
                self@.len() == 0,
                start == drained@ + self@,
                self.is_open() == was_open,
            decreases self@.len(),
        {
            match self.pop_front() {
                Some(tx) => drained.push(tx),
                None => break,
            }
        }
        proof {
            assert(drained@ =~= start);
        }
        drained
    }
}

/// A fresh registry: an empty, open pool behind a lock whose invariant is
/// [`registry_inv`].
pub(crate) fn new_registry<T>() -> (r: Registry<T>)
    ensures
        (*r).pred() == registry_inv::<T>(),
{
    let pool = Waiters::<T>::new();
    Arc::new(RwLock::new(pool, Ghost(registry_inv::<T>())))
}

/// Relies on `Arc::clone`: the clone refers to the same allocation, so both
/// handles stand for the same registry.
#[verifier::external_body]
pub(crate) fn share_registry<T>(r: &Registry<T>) -> (s: Registry<T>)
    ensures
        s == *r,
{
    Arc::clone(r)
}

} // verus!
