//! Accounts as an instruction sees them, and the checks that every
//! instruction makes of them.

use crate::address::Address;
use crate::error::TipBotError;
use crate::pda::{
    associated_token_address, derives, find_program_address, id, is_associated_token_address,
    is_program_address, master_wallet_seeds, push_bump, seeds_view, spec_find_program_address,
    spec_master_wallet_seeds, spec_user_seeds, user_seeds, with_bump, ID,
};
use crate::state::{EscrowAccount, MasterWallet, UserAccount};
use vstd::prelude::*;

verus! {

/// The place of a record: its address and, once the record has been created,
/// what is stored there.
#[derive(Clone, Debug, PartialEq, Eq)]
pub struct Account<T> {
    pub key: Address,
    pub data: Option<T>,
}

/// A holding account that an instruction creates where it is missing.
#[derive(Clone, Copy, Debug, PartialEq, Eq)]
pub struct HoldingAccount {
    pub key: Address,
    /// Whether the token program has created the account.
    pub initialized: bool,
}

/// The error with which the account of a master wallet is refused: it has to
/// hold a record, at the address that the record's authority derives with the
/// record's bump seed.
pub open spec fn master_wallet_error(account: Account<MasterWallet>) -> Option<TipBotError> {
    match account.data {
        None => Some(TipBotError::AccountNotInitialized),
        Some(wallet) => if derives(
            spec_master_wallet_seeds(wallet.authority),
            wallet.bump,
            ID@,
            account.key,
        ) {
            None
        } else {
            Some(TipBotError::AddressMismatch)
        },
    }
}

/// The error with which the account of a user is refused as the account of
/// `handle`: it has to hold a record, at the address that the handle derives
/// under the master wallet with the record's bump seed.
pub open spec fn user_account_error(
    account: Account<UserAccount>,
    handle: Seq<char>,
    master_wallet: Address,
) -> Option<TipBotError> {
    match account.data {
        None => Some(TipBotError::AccountNotInitialized),
        Some(user) => if derives(
            spec_user_seeds(handle, master_wallet),
            user.bump,
            ID@,
            account.key,
        ) {
            None
        } else {
            Some(TipBotError::AddressMismatch)
        },
    }
}

/// The error with which the account of a user is refused as the account of
/// the handle that it stores.
pub open spec fn own_user_account_error(
    account: Account<UserAccount>,
    master_wallet: Address,
) -> Option<TipBotError> {
    match account.data {
        None => Some(TipBotError::AccountNotInitialized),
        Some(user) => user_account_error(account, user.twitter_handle@, master_wallet),
    }
}

/// The canonical bump seed of the seeds, where `key` is their canonical
/// address under this program.
pub open spec fn spec_canonical_bump(seeds: Seq<Seq<u8>>, key: Address) -> Option<u8> {
    match spec_find_program_address(seeds, ID@) {
        Some((address, bump)) => if address == key.seed() {
            Some(bump)
        } else {
            None
        },
        None => None,
    }
}

/// The seeds with which the program signs for a master wallet.
pub open spec fn spec_master_signer_seeds(wallet: MasterWallet) -> Seq<Seq<u8>> {
    with_bump(spec_master_wallet_seeds(wallet.authority), wallet.bump)
}

/// The error with which the account of a master wallet is refused, if it is
/// refused.
pub fn check_master_wallet(account: &Account<MasterWallet>) -> (error: Option<TipBotError>)
    ensures
        error == master_wallet_error(*account),
{
    match &account.data {
        None => Some(TipBotError::AccountNotInitialized),
        Some(wallet) => {
            let seeds = master_wallet_seeds(&wallet.authority);
            if is_program_address(&account.key, seeds, wallet.bump, &id()) {
                None
            } else {
                Some(TipBotError::AddressMismatch)
            }
        },
    }
}

/// The error with which the account of a user is refused as the account of
/// `handle`, if it is refused.
pub fn check_user_account(account: &Account<UserAccount>, handle: &str, master_wallet: &Address) -> (error:
    Option<TipBotError>)
    ensures
        error == user_account_error(*account, handle@, *master_wallet),
{
    match &account.data {
        None => Some(TipBotError::AccountNotInitialized),
        Some(user) => {
            let seeds = user_seeds(handle, master_wallet);
            if is_program_address(&account.key, seeds, user.bump, &id()) {
                None
            } else {
                Some(TipBotError::AddressMismatch)
            }
        },
    }
}

/// The error with which the account of a user is refused as the account of
/// the handle that it stores, if it is refused.
pub fn check_own_user_account(account: &Account<UserAccount>, master_wallet: &Address) -> (error:
    Option<TipBotError>)
    ensures
        error == own_user_account_error(*account, *master_wallet),
{
    match &account.data {
        None => Some(TipBotError::AccountNotInitialized),
        Some(user) => check_user_account(account, user.twitter_handle.as_str(), master_wallet),
    }
}

/// The canonical bump seed of the seeds, if `key` is their canonical address
/// under this program.
pub fn canonical_bump(seeds: &Vec<Vec<u8>>, key: &Address) -> (bump: Option<u8>)
    ensures
        bump == spec_canonical_bump(seeds_view(*seeds), *key),
{
    match find_program_address(seeds, &id()) {
        Some((address, bump)) => {
            proof {
                Address::lemma_seed_injective(address, *key);
            }
            if address == *key {
                Some(bump)
            } else {
                None
            }
        },
        None => None,
    }
}

/// Whether `key` is the holding account of the wallet for the mint.
pub fn is_holding_account(key: &Address, wallet: &Address, mint: &Address) -> (ok: bool)
    ensures
        ok == is_associated_token_address(*key, *wallet, *mint),
{
    match associated_token_address(wallet, mint) {
        Some(address) => {
            proof {
                Address::lemma_seed_injective(address, *key);
            }
            address == *key
        },
        None => false,
    }
}

/// The seeds with which the program signs for a master wallet.
pub fn master_signer_seeds(wallet: &MasterWallet) -> (seeds: Vec<Vec<u8>>)
    ensures
        seeds_view(seeds) == spec_master_signer_seeds(*wallet),
{
    push_bump(master_wallet_seeds(&wallet.authority), wallet.bump)
}

/// The escrow is kept for a handle other than `handle`.
pub open spec fn escrow_kept_for_other(account: Account<EscrowAccount>, handle: Seq<char>) -> bool {
    account.data matches Some(escrow) && escrow.is_bound() && escrow.recipient_twitter_handle@
        != handle
}

/// The handle that the escrow is kept for once it has been used for
/// `handle`: the one that it was bound to, and `handle` where it was bound to
/// none.
pub open spec fn bound_handle(account: Account<EscrowAccount>, handle: String) -> String {
    match account.data {
        Some(escrow) => if escrow.is_bound() {
            escrow.recipient_twitter_handle
        } else {
            handle
        },
        None => handle,
    }
}

/// What the escrow holds; nothing where it has not been created.
pub open spec fn escrow_amount(account: Account<EscrowAccount>) -> u64 {
    match account.data {
        Some(escrow) => escrow.amount,
        None => 0,
    }
}

/// What the user can spend; nothing where the account has not been created.
pub open spec fn user_balance(account: Account<UserAccount>) -> u64 {
    match account.data {
        Some(user) => user.balance,
        None => 0,
    }
}

/// Binds the escrow to `handle`: gives the handle that the escrow is kept for
/// from now on, or refuses where it is kept for another one.
pub fn bind_escrow(account: &Account<EscrowAccount>, handle: &String) -> (bound: Result<
    String,
    TipBotError,
>)
    ensures
        match bound {
            Ok(kept) => !escrow_kept_for_other(*account, handle@) && kept == bound_handle(
                *account,
                *handle,
            ),
            Err(error) => escrow_kept_for_other(*account, handle@) && error
                == TipBotError::EscrowHandleMismatch,
        },
{
    match &account.data {
        Some(escrow) => {
            if escrow.recipient_twitter_handle.as_str().is_empty() {
                Ok(handle.clone())
            } else if escrow.recipient_twitter_handle == *handle {
                Ok(escrow.recipient_twitter_handle.clone())
            } else {
                Err(TipBotError::EscrowHandleMismatch)
            }
        },
        None => Ok(handle.clone()),
    }
}

} // verus!
