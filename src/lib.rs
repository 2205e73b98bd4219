//! Confidential transactions: Pedersen commitments with range proofs, signed
//! transfers that bind a commitment to a sender, and a hash-chained ledger.

pub mod bytes;
pub mod error;
pub mod json;
pub mod ledger;
pub mod tx;
pub mod zkps;
