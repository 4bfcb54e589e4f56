//! A withdrawal to a holding account outside the ledger.

use crate::accounts::{
    check_master_wallet, check_own_user_account, is_holding_account, master_signer_seeds,
    master_wallet_error, own_user_account_error, spec_master_signer_seeds, user_balance, Account,
};
use crate::address::Address;
use crate::cpi::{Transfer, TransferView};
use crate::error::TipBotError;
use crate::pda::is_associated_token_address;
use crate::state::{MasterWallet, UserAccount};
use vstd::prelude::*;

verus! {

/// The accounts of a withdrawal.
#[derive(Clone, Debug, PartialEq, Eq)]
pub struct Withdraw {
    /// The registry of the user.
    pub master_wallet: Account<MasterWallet>,
    /// The account that is withdrawn from.
    pub user_account: Account<UserAccount>,
    /// The signer, who has to own the account.
    pub owner: Address,
    /// The holding account behind the user's balance.
    pub user_token_account: Address,
    /// The holding account that receives the funds. It may be any account:
    /// the token program alone decides whether it can receive them.
    pub recipient_token_account: Address,
    /// The asset that the ledger keeps.
    pub mint: Address,
}

impl Withdraw {
    /// The error with which the accounts are refused, the first of those
    /// that apply: the master wallet and the user account have to be what
    /// their records say, the signer has to own the user account, and the
    /// user's holding account has to be the holding account of the master
    /// wallet.
    pub open spec fn accounts_error(self) -> Option<TipBotError> {
        if master_wallet_error(self.master_wallet) is Some {
            master_wallet_error(self.master_wallet)
        } else if own_user_account_error(self.user_account, self.master_wallet.key) is Some {
            own_user_account_error(self.user_account, self.master_wallet.key)
        } else if self.user_account.data->0.owner != self.owner {
            Some(TipBotError::OwnerMismatch)
        } else if !is_associated_token_address(
            self.user_token_account,
            self.master_wallet.key,
            self.mint,
        ) {
            Some(TipBotError::InvalidTokenAccount)
        } else {
            None
        }
    }

    /// The error with which a withdrawal of `amount` fails, the first of
    /// those that apply; `None` where it succeeds.
    pub open spec fn error(self, amount: u64) -> Option<TipBotError> {
        if self.accounts_error() is Some {
            self.accounts_error()
        } else if amount == 0 {
            Some(TipBotError::InvalidAmount)
        } else if user_balance(self.user_account) < amount {
            Some(TipBotError::InsufficientBalance)
        } else {
            None
        }
    }

    /// The accounts after a withdrawal of `amount`: the user has `amount`
    /// less.
    pub open spec fn effect(self, amount: u64) -> Withdraw {
        let user = self.user_account.data->0;
        Withdraw {
            user_account: Account {
                key: self.user_account.key,
                data: Some(UserAccount { balance: (user.balance - amount) as u64, ..user }),
            },
            ..self
        }
    }

    /// The transfer that the withdrawal asks for: `amount` goes from the
    /// user's holding account to the recipient's, and the master wallet
    /// authorises it.
    pub open spec fn transfer(self, amount: u64) -> TransferView {
        TransferView {
            from: self.user_token_account,
            to: self.recipient_token_account,
            authority: self.master_wallet.key,
            amount,
            signer_seeds: spec_master_signer_seeds(self.master_wallet.data->0),
        }
    }
}

/// Takes `amount` from the user's balance and sends it out of the ledger.
pub fn withdraw(ctx: &mut Withdraw, amount: u64) -> (done: Result<Transfer, TipBotError>)
    ensures
        match old(ctx).error(amount) {
            Some(error) => {
                &&& done matches Err(e)
                &&& e == error
                &&& *final(ctx) == *old(ctx)
            },
            None => {
                &&& done matches Ok(transfer)
                &&& transfer@ == old(ctx).transfer(amount)
                &&& *final(ctx) == old(ctx).effect(amount)
            },
        },
{
    if let Some(error) = check_master_wallet(&ctx.master_wallet) {
        return Err(error);
    }
    let master_key = ctx.master_wallet.key;
    if let Some(error) = check_own_user_account(&ctx.user_account, &master_key) {
        return Err(error);
    }
    let balance = match &ctx.user_account.data {
        Some(user) => {
            if user.owner != ctx.owner {
                return Err(TipBotError::OwnerMismatch);
            }
            user.balance
        },
        None => {
            return Err(TipBotError::AccountNotInitialized);
        },
    };
    if !is_holding_account(&ctx.user_token_account, &master_key, &ctx.mint) {
        return Err(TipBotError::InvalidTokenAccount);
    }
    if amount == 0 {
        return Err(TipBotError::InvalidAmount);
    }
    if balance < amount {
        return Err(TipBotError::InsufficientBalance);
    }
    let signer_seeds = match &ctx.master_wallet.data {
        Some(wallet) => master_signer_seeds(wallet),
        None => {
            return Err(TipBotError::AccountNotInitialized);
        },
    };
    let transfer = Transfer {
        from: ctx.user_token_account,
        to: ctx.recipient_token_account,
        authority: master_key,
        amount,
        signer_seeds,
    };
    match &mut ctx.user_account.data {
        Some(user) => {
            user.balance = balance - amount;
        },
        None => {},
    }
    Ok(transfer)
}

} // verus!
