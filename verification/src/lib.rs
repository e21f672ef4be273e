//! A single-owner ledger account: one record per owner, holding a mirrored
//! balance of value kept by an external value-transfer ledger, with
//! authorization and reserve-floor checks on withdrawal.

pub mod bank;
pub mod laws;
