//! An escrow ledger for payments between a client and a freelancer.
//!
//! The ledger keeps one record per payment, assigns identifiers from a
//! strictly increasing counter, and moves each record along the lifecycle
//! `Pending -> Escrowed -> {Released | Refunded | Disputed}` under
//! caller-based authorization. The caller's identity and the current time
//! are passed in explicitly by the hosting boundary.

pub mod laws;
pub mod ledger;
pub mod payment;
