//! Settlement of pay-per-use service calls that are backed by escrowed funds,
//! and the reputation ledger of the services that are paid.
//!
//! `escrow` holds the call record, the proration of an amount over delivery
//! units, the decision between release and refund, and the operations that
//! move a call through its life. `reputation` holds the service record, its
//! bond and its latency statistics. `identity` holds the keys by which both
//! know who is asking.

pub mod escrow;
pub mod identity;
pub mod reputation;
