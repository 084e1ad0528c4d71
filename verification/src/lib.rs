//! Cross-ledger payroll settlement and trust-fund custody engine.
//!
//! The library decides, for a given worker/employer pair and a given pool of
//! funds, whether a payout may be released now, must wait for multi-party
//! approval, must be escalated to a governance vote, or must be rejected
//! outright.  Transport, persistence backends and the concrete proof system
//! are external collaborators: their verdicts and timestamps enter the
//! library as plain values, and every decision taken on them is verified.

pub mod bridge;
pub mod clock;
pub mod compliance;
pub mod errors;
pub mod farm;
pub mod identity;
pub mod payments;
pub mod payroll;
pub mod proof_submission;
pub mod proof_verifier;
pub mod remote_payroll;
pub mod settlement;
pub mod tax_registry;
pub mod trust_pool;
pub mod util;
pub mod worker_registry;
pub mod zk_payroll;
pub mod zpass;
