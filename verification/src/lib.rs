//! One-shot resource distribution between waiting customers and a vendor.
//!
//! A [`Vendor`] hands a value out to every [`Customer`] that is queued at the
//! moment of the hand-out; a customer that has not queued up yet simply misses
//! that value. Nothing is buffered for latecomers: freshness matters more than
//! durability here.
//!
//! The shared waiting pool is a [`Waiters`] registry of single-use delivery
//! slots. A customer registers interest by enqueueing the sending half of a
//! fresh slot and then waits on the receiving half; a vendor drains every
//! slot present in one pass and offers each a clone of the value.
//!
//! The registry sits behind a verified lock under reference-counted
//! ownership, so it lives as long as its longest-lived handle. A slot still
//! queued when the last handle goes away is never resolved: do not wait on a
//! receiving half after dropping every [`Vendor`] and [`Customer`] bound to
//! its registry.

mod customer;
mod errors;
mod laws;
mod slot;
mod vendor;
mod waiters;

pub use customer::{redeem, settle, Customer};
pub use errors::{RequestError, SendError};
pub use laws::{
    lemma_count_consistency, lemma_drain_claims_each_slot_once, lemma_fan_out,
    lemma_loss_when_idle, lemma_no_redelivery,
};
pub use vendor::{deliver_to_all, Vendor};
pub use waiters::Waiters;
