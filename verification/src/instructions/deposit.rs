//! A deposit from a holding account outside the ledger.

use crate::accounts::{
    check_master_wallet, check_own_user_account, is_holding_account, master_wallet_error,
    own_user_account_error, user_balance, Account,
};
use crate::address::Address;
use crate::cpi::{Transfer, TransferView};
use crate::error::TipBotError;
use crate::pda::is_associated_token_address;
use crate::state::{MasterWallet, UserAccount};
use vstd::prelude::*;

verus! {

/// The accounts of a deposit.
#[derive(Clone, Debug, PartialEq, Eq)]
pub struct Deposit {
    /// The registry of the user.
    pub master_wallet: Account<MasterWallet>,
    /// The account that is credited.
    pub user_account: Account<UserAccount>,
    /// The signer, whose funds are deposited.
    pub depositor: Address,
    /// The holding account of the depositor.
    pub depositor_token_account: Address,
    /// The holding account behind the user's balance.
    pub user_token_account: Address,
    /// The asset that the ledger keeps.
    pub mint: Address,
}

impl Deposit {
    /// The error with which the accounts are refused, the first of those
    /// that apply: the master wallet and the user account have to be what
    /// their records say, and the holding accounts have to be those of the
    /// depositor and of the master wallet.
    pub open spec fn accounts_error(self) -> Option<TipBotError> {
        if master_wallet_error(self.master_wallet) is Some {
            master_wallet_error(self.master_wallet)
        } else if own_user_account_error(self.user_account, self.master_wallet.key) is Some {
            own_user_account_error(self.user_account, self.master_wallet.key)
        } else if !is_associated_token_address(
            self.depositor_token_account,
            self.depositor,
            self.mint,
        ) || !is_associated_token_address(
            self.user_token_account,
            self.master_wallet.key,
            self.mint,
        ) {
            Some(TipBotError::InvalidTokenAccount)
        } else {
            None
        }
    }

    /// The error with which a deposit of `amount` fails, the first of those
    /// that apply; `None` where it succeeds. An amount of zero is no error.
    pub open spec fn error(self, amount: u64) -> Option<TipBotError> {
        if self.accounts_error() is Some {
            self.accounts_error()
        } else if user_balance(self.user_account) + amount > u64::MAX {
            Some(TipBotError::MathOverflow)
        } else {
            None
        }
    }

    /// The accounts after a deposit of `amount`: the user has `amount` more.
    pub open spec fn effect(self, amount: u64) -> Deposit {
        let user = self.user_account.data->0;
        Deposit {
            user_account: Account {
                key: self.user_account.key,
                data: Some(UserAccount { balance: (user.balance + amount) as u64, ..user }),
            },
            ..self
        }
    }

    /// The transfer that the deposit asks for: `amount` goes from the
    /// depositor's holding account to the user's, and the depositor
    /// authorises it as a signer.
    pub open spec fn transfer(self, amount: u64) -> TransferView {
        TransferView {
            from: self.depositor_token_account,
            to: self.user_token_account,
            authority: self.depositor,
            amount,
            signer_seeds: Seq::empty(),
        }
    }
}

/// Credits `amount` to the user, to be paid from the depositor's holding
/// account.
pub fn deposit(ctx: &mut Deposit, amount: u64) -> (done: Result<Transfer, TipBotError>)
    ensures
        match old(ctx).error(amount) {
            Some(error) => {
                &&& done matches Err(e)
                &&& e == error
                &&& *final(ctx) == *old(ctx)
            },
            None => {
                &&& done matches Ok(transfer)
                &&& transfer@ == old(ctx).transfer(amount)
                &&& *final(ctx) == old(ctx).effect(amount)
            },
        },
{
    if let Some(error) = check_master_wallet(&ctx.master_wallet) {
        return Err(error);
    }
    let master_key = ctx.master_wallet.key;
    if let Some(error) = check_own_user_account(&ctx.user_account, &master_key) {
        return Err(error);
    }
    if !is_holding_account(&ctx.depositor_token_account, &ctx.depositor, &ctx.mint) {
        return Err(TipBotError::InvalidTokenAccount);
    }
    if !is_holding_account(&ctx.user_token_account, &master_key, &ctx.mint) {
        return Err(TipBotError::InvalidTokenAccount);
    }
    let transfer = Transfer {
        from: ctx.depositor_token_account,
        to: ctx.user_token_account,
        authority: ctx.depositor,
        amount,
        signer_seeds: Vec::new(),
    };
    match &mut ctx.user_account.data {
        Some(user) => match user.balance.checked_add(amount) {
            Some(sum) => {
                user.balance = sum;
                assert(transfer@.signer_seeds =~= Seq::<Seq<u8>>::empty());
                Ok(transfer)
            },
            None => Err(TipBotError::MathOverflow),
        },
        None => Err(TipBotError::AccountNotInitialized),
    }
}

} // verus!
