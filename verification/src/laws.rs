//! The delivery laws of the registry, stated over the model that the
//! contracts of [`crate::Waiters`] and [`crate::deliver_to_all`] speak of: the
//! sequence of queued senders before a drain pass (`before`), the sequence the
//! pass returns (`drained`), and what stays behind (`after`). The premises of
//! each law are exactly what those contracts give.

use vstd::prelude::*;

verus! {

/// At-most-once delivery, within one pass: a drain pass claims each queued
/// slot exactly as often as it stood in the queue, and leaves none of them
/// behind, so no slot can be offered a value twice by the pass that took it.
pub proof fn lemma_drain_claims_each_slot_once<T>(
    before: Seq<onetime::Sender<T>>,
    drained: Seq<onetime::Sender<T>>,
    after: Seq<onetime::Sender<T>>,
    slot: onetime::Sender<T>,
)
    requires
        drained == before,
        after.len() == 0,
    ensures
        drained.to_multiset().count(slot) == before.to_multiset().count(slot),
        after.to_multiset().count(slot) == 0,
{
    broadcast use vstd::seq_lib::group_to_multiset_ensures;

    assert(!after.contains(slot));
}

/// At-most-once delivery, across passes: a slot claimed by one drain pass is
/// consumed by its delivery attempt, so it cannot be queued again; a later
/// pass returns only what was enqueued after the first one emptied the
/// registry, and the slot is not among it.
pub proof fn lemma_no_redelivery<T>(
    drained_first: Seq<onetime::Sender<T>>,
    enqueued_between: Seq<onetime::Sender<T>>,
    drained_second: Seq<onetime::Sender<T>>,
    slot: onetime::Sender<T>,
)
    requires
        drained_first.contains(slot),
        !enqueued_between.contains(slot),
        drained_second == enqueued_between,
    ensures
        !drained_second.contains(slot),
{
}

/// Loss when idle: a drain pass over an empty registry returns no slots, so
/// the send that made the pass offers its value to nobody and the value is
/// simply dropped.
pub proof fn lemma_loss_when_idle<T>(
    before: Seq<onetime::Sender<T>>,
    drained: Seq<onetime::Sender<T>>,
)
    requires
        before.len() == 0,
        drained == before,
    ensures
        drained.len() == 0,
{
}

/// Fan-out: a drain pass that observes n queued slots returns exactly those
/// n slots, in order, so every one of them is offered the value of the send
/// that made the pass.
pub proof fn lemma_fan_out<T>(before: Seq<onetime::Sender<T>>, drained: Seq<onetime::Sender<T>>)
    requires
        drained == before,
    ensures
        drained.len() == before.len(),
        forall|i: int| 0 <= i < before.len() ==> drained[i] == before[i],
{
}

/// Count consistency: after some registrations have enqueued their slots on
/// an idle registry, and before any drain, the registry holds exactly those
/// slots, so its length reads their number.
pub proof fn lemma_count_consistency<T>(
    before: Seq<onetime::Sender<T>>,
    enqueued: Seq<onetime::Sender<T>>,
    after: Seq<onetime::Sender<T>>,
)
    requires
        before.len() == 0,
        after == before + enqueued,
    ensures
        after.len() == enqueued.len(),
{
}

} // verus!
