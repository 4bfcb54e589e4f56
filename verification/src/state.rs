//! The records of the ledger.

use crate::address::Address;
use vstd::prelude::*;
use vstd::utf8::encode_utf8;

verus! {

/// The greatest length of a handle, in bytes.
pub const MAX_HANDLE_LEN: usize = 32;

/// The registry of one authority. It counts what has been registered under
/// it, and the accounts of its users and escrows are derived from its address.
#[derive(Clone, Debug, PartialEq, Eq)]
pub struct MasterWallet {
    /// The party that controls the deployment.
    pub authority: Address,
    /// The number of registrations.
    pub total_users: u64,
    /// The number of tips that have gone to an escrow.
    pub total_escrows: u64,
    /// The bump seed of the address of the record.
    pub bump: u8,
}

impl MasterWallet {
    /// The bytes that the stored record takes.
    pub const SIZE: usize = 32 + 8 + 8 + 1;

    /// The bytes that this record takes when stored: the authority, the two
    /// counters and the bump seed.
    pub open spec fn stored_len(self) -> nat {
        32 + 8 + 8 + 1
    }
}

/// The account of a registered handle.
#[derive(Clone, Debug, PartialEq, Eq)]
pub struct UserAccount {
    /// The handle that the account is registered under. It never changes.
    pub twitter_handle: String,
    /// The party that may withdraw from the account.
    pub owner: Address,
    /// What the user can spend.
    pub balance: u64,
    /// What the registration claimed from the escrow. It is a record of that
    /// moment and does not follow the balance.
    pub escrow_balance: u64,
    /// The bump seed of the address of the record.
    pub bump: u8,
}

impl UserAccount {
    /// The bytes that the stored record takes, with the longest handle.
    pub const SIZE: usize = 4 + 32 + 32 + 8 + 8 + 1;

    /// The bytes that this record takes when stored: the handle behind its
    /// length, the owner, the two balances and the bump seed.
    pub open spec fn stored_len(self) -> nat {
        4 + handle_len(self.twitter_handle@) + 32 + 8 + 8 + 1
    }
}

/// What waits for a handle until it is registered.
#[derive(Clone, Debug, PartialEq, Eq)]
pub struct EscrowAccount {
    /// The handle that the escrow is kept for. It is empty until the first
    /// use binds it, and never changes after that.
    pub recipient_twitter_handle: String,
    /// What is held and not claimed yet.
    pub amount: u64,
    /// The bump seed of the address of the record.
    pub bump: u8,
}

impl EscrowAccount {
    /// The bytes that the stored record takes, with the longest handle.
    pub const SIZE: usize = 4 + 32 + 8 + 1;

    /// The bytes that this record takes when stored: the handle behind its
    /// length, the amount and the bump seed.
    pub open spec fn stored_len(self) -> nat {
        4 + handle_len(self.recipient_twitter_handle@) + 8 + 1
    }

    /// The escrow is kept for a handle.
    pub open spec fn is_bound(self) -> bool {
        self.recipient_twitter_handle@.len() > 0
    }
}

/// A handle is stored in as many bytes as its UTF-8 encoding has.
pub open spec fn handle_len(handle: Seq<char>) -> nat {
    encode_utf8(handle).len()
}

/// Whether a handle is short enough to be registered.
pub fn handle_fits(handle: &str) -> (fits: bool)
    ensures
        fits == (handle_len(handle@) <= MAX_HANDLE_LEN),
{
    handle.as_bytes().len() <= MAX_HANDLE_LEN
}

} // verus!
