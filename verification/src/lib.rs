//! A custodial tipping ledger.
//!
//! A central authority registers users under an external handle, keeps their
//! balances in pooled holding accounts, moves value between registered users
//! and parks value meant for a handle that is not registered yet in an escrow,
//! which the registration of that handle claims.
//!
//! Every instruction is a transition over the records it is handed: it checks
//! the addresses of the accounts against their derivations, checks its
//! arguments against the records, and either fails and leaves every record as
//! it was, or updates the records and says which token instructions the
//! caller has to invoke for the funds to follow the books.

pub mod accounts;
pub mod address;
pub mod books;
pub mod cpi;
pub mod error;
pub mod instructions;
pub mod laws;
pub mod pda;
pub mod state;

pub use accounts::{Account, HoldingAccount};
pub use address::Address;
pub use cpi::{Create, Transfer};
pub use error::TipBotError;
pub use instructions::deposit::{deposit, Deposit};
pub use instructions::initialize::{initialize, Initialize};
pub use instructions::register_user::{register_user, RegisterUser};
pub use instructions::tip::{tip, Tip};
pub use instructions::tip_to_escrow::{tip_to_escrow, TipToEscrow};
pub use instructions::withdraw::{withdraw, Withdraw};
pub use state::{EscrowAccount, MasterWallet, UserAccount};
