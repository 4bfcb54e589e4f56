//! The instructions of the ledger.

pub mod deposit;
pub mod initialize;
pub mod register_user;
pub mod tip;
pub mod tip_to_escrow;
pub mod withdraw;
