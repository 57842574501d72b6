//! Purchase receipts and recurring billing agreements kept at deterministic
//! addresses.
//!
//! Every operation takes the records and balances it touches as plain values,
//! decides whether it may go ahead, and either applies its whole effect or
//! leaves everything as it was and names the reason.

pub mod address;
pub mod ledger;
pub mod receipt;
pub mod subscription;
