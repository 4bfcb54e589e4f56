//! A tip from one registered user to another.

use crate::accounts::{
    check_master_wallet, check_own_user_account, check_user_account, is_holding_account,
    master_signer_seeds, master_wallet_error, own_user_account_error, spec_master_signer_seeds,
    user_account_error, user_balance, Account,
};
use crate::address::Address;
use crate::cpi::{Transfer, TransferView};
use crate::error::TipBotError;
use crate::pda::is_associated_token_address;
use crate::state::{MasterWallet, UserAccount};
use vstd::prelude::*;

verus! {

/// The accounts of a tip.
#[derive(Clone, Debug, PartialEq, Eq)]
pub struct Tip {
    /// The registry of both users.
    pub master_wallet: Account<MasterWallet>,
    /// The account that the tip is taken from.
    pub sender_user_account: Account<UserAccount>,
    /// The account that the tip goes to.
    pub recipient_user_account: Account<UserAccount>,
    /// The holding account behind the sender's balance.
    pub sender_token_account: Address,
    /// The holding account behind the recipient's balance.
    pub recipient_token_account: Address,
    /// The asset that the ledger keeps.
    pub mint: Address,
}

impl Tip {
    /// The sender tips themself: both places are the same account.
    pub open spec fn to_self(self) -> bool {
        self.sender_user_account.key == self.recipient_user_account.key
    }

    /// The error with which the accounts are refused for a tip to `handle`,
    /// the first of those that apply: the master wallet and the sender's
    /// account have to be what their records say, the recipient's account has
    /// to be the account of `handle`, and both holding accounts have to be the
    /// holding account of the master wallet.
    pub open spec fn accounts_error(self, handle: Seq<char>) -> Option<TipBotError> {
        if master_wallet_error(self.master_wallet) is Some {
            master_wallet_error(self.master_wallet)
        } else if own_user_account_error(self.sender_user_account, self.master_wallet.key)
            is Some {
            own_user_account_error(self.sender_user_account, self.master_wallet.key)
        } else if user_account_error(self.recipient_user_account, handle, self.master_wallet.key)
            is Some {
            user_account_error(self.recipient_user_account, handle, self.master_wallet.key)
        } else if !is_associated_token_address(
            self.sender_token_account,
            self.master_wallet.key,
            self.mint,
        ) || !is_associated_token_address(
            self.recipient_token_account,
            self.master_wallet.key,
            self.mint,
        ) {
            Some(TipBotError::InvalidTokenAccount)
        } else {
            None
        }
    }

    /// The error with which a tip of `amount` to `handle` fails, the first of
    /// those that apply; `None` where it succeeds.
    pub open spec fn error(self, amount: u64, handle: Seq<char>) -> Option<TipBotError> {
        if self.accounts_error(handle) is Some {
            self.accounts_error(handle)
        } else if amount == 0 {
            Some(TipBotError::InvalidAmount)
        } else if self.recipient_user_account.data->0.twitter_handle@ != handle {
            Some(TipBotError::EscrowHandleMismatch)
        } else if user_balance(self.sender_user_account) < amount {
            Some(TipBotError::InsufficientBalance)
        } else if !self.to_self() && user_balance(self.recipient_user_account) + amount
            > u64::MAX {
            Some(TipBotError::MathOverflow)
        } else {
            None
        }
    }

    /// The accounts after a tip of `amount`: the sender has `amount` less and
    /// the recipient `amount` more. A tip to oneself leaves the balance as it
    /// was.
    pub open spec fn effect(self, amount: u64) -> Tip {
        let sender = self.sender_user_account.data->0;
        let recipient = self.recipient_user_account.data->0;
        if self.to_self() {
            self
        } else {
            Tip {
                sender_user_account: Account {
                    key: self.sender_user_account.key,
                    data: Some(UserAccount { balance: (sender.balance - amount) as u64, ..sender }),
                },
                recipient_user_account: Account {
                    key: self.recipient_user_account.key,
                    data: Some(
                        UserAccount { balance: (recipient.balance + amount) as u64, ..recipient },
                    ),
                },
                ..self
            }
        }
    }

    /// The transfer that the tip asks for: `amount` goes from the sender's
    /// holding account to the recipient's, and the master wallet authorises
    /// it.
    pub open spec fn transfer(self, amount: u64) -> TransferView {
        TransferView {
            from: self.sender_token_account,
            to: self.recipient_token_account,
            authority: self.master_wallet.key,
            amount,
            signer_seeds: spec_master_signer_seeds(self.master_wallet.data->0),
        }
    }
}

/// Moves `amount` from the sender to the registered user
/// `recipient_twitter_handle`.
pub fn tip(ctx: &mut Tip, amount: u64, recipient_twitter_handle: String) -> (done: Result<
    Transfer,
    TipBotError,
>)
    ensures
        match old(ctx).error(amount, recipient_twitter_handle@) {
            Some(error) => {
                &&& done matches Err(e)
                &&& e == error
                &&& *final(ctx) == *old(ctx)
            },
            None => {
                &&& done matches Ok(transfer)
                &&& transfer@ == old(ctx).transfer(amount)
                &&& *final(ctx) == old(ctx).effect(amount)
            },
        },
{
    if let Some(error) = check_master_wallet(&ctx.master_wallet) {
        return Err(error);
    }
    let master_key = ctx.master_wallet.key;
    if let Some(error) = check_own_user_account(&ctx.sender_user_account, &master_key) {
        return Err(error);
    }
    if let Some(error) = check_user_account(
        &ctx.recipient_user_account,
        recipient_twitter_handle.as_str(),
        &master_key,
    ) {
        return Err(error);
    }
    if !is_holding_account(&ctx.sender_token_account, &master_key, &ctx.mint) {
        return Err(TipBotError::InvalidTokenAccount);
    }
    if !is_holding_account(&ctx.recipient_token_account, &master_key, &ctx.mint) {
        return Err(TipBotError::InvalidTokenAccount);
    }
    if amount == 0 {
        return Err(TipBotError::InvalidAmount);
    }
    let recipient_balance = match &ctx.recipient_user_account.data {
        Some(recipient) => {
            if recipient.twitter_handle != recipient_twitter_handle {
                return Err(TipBotError::EscrowHandleMismatch);
            }
            recipient.balance
        },
        None => {
            return Err(TipBotError::AccountNotInitialized);
        },
    };
    let sender_balance = match &ctx.sender_user_account.data {
        Some(sender) => sender.balance,
        None => {
            return Err(TipBotError::AccountNotInitialized);
        },
    };
    if sender_balance < amount {
        return Err(TipBotError::InsufficientBalance);
    }
    let to_self = ctx.sender_user_account.key == ctx.recipient_user_account.key;
    let credited = if to_self {
        recipient_balance
    } else {
        match recipient_balance.checked_add(amount) {
            Some(sum) => sum,
            None => {
                return Err(TipBotError::MathOverflow);
            },
        }
    };
    let signer_seeds = match &ctx.master_wallet.data {
        Some(wallet) => master_signer_seeds(wallet),
        None => {
            return Err(TipBotError::AccountNotInitialized);
        },
    };
    let transfer = Transfer {
        from: ctx.sender_token_account,
        to: ctx.recipient_token_account,
        authority: master_key,
        amount,
        signer_seeds,
    };
    if !to_self {
        match &mut ctx.sender_user_account.data {
            Some(sender) => {
                sender.balance = sender_balance - amount;
            },
            None => {},
        }
        match &mut ctx.recipient_user_account.data {
            Some(recipient) => {
                recipient.balance = credited;
            },
            None => {},
        }
    }
    Ok(transfer)
}

} // verus!
