//! A two-party escrow ("grant") library.
//!
//! A sender deposits funds earmarked for a receiver into a custodial
//! holding record; the funds are later released to the receiver or
//! refunded to the sender, after which the record can be closed.  Every
//! mutating operation first re-derives the record's canonical identity
//! and authorization tags and rejects any mismatch with the values the
//! caller supplied and with the record's stored fields.

pub mod deriver;
pub mod errors;
pub mod escrow;
pub mod kv;
pub mod laws;
pub mod ledger;

pub use errors::ErrorCode;
