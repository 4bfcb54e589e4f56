//! A tip to a handle that is not registered yet.

use crate::accounts::{
    bind_escrow, bound_handle, canonical_bump, check_master_wallet, check_own_user_account,
    escrow_amount, escrow_kept_for_other, is_holding_account, master_signer_seeds,
    master_wallet_error, own_user_account_error, spec_canonical_bump, spec_master_signer_seeds,
    user_balance, Account, HoldingAccount,
};
use crate::address::Address;
use crate::cpi::{Create, Transfer, TransferView};
use crate::error::TipBotError;
use crate::pda::{escrow_seeds, is_associated_token_address, spec_escrow_seeds};
use crate::state::{EscrowAccount, MasterWallet, UserAccount};
use vstd::prelude::*;

verus! {

/// The accounts of a tip to an escrow.
#[derive(Clone, Debug, PartialEq, Eq)]
pub struct TipToEscrow {
    /// The registry of the sender, which counts the tip.
    pub master_wallet: Account<MasterWallet>,
    /// The account that the tip is taken from.
    pub sender_user_account: Account<UserAccount>,
    /// The escrow of the recipient's handle, created here where it is missing.
    pub escrow_account: Account<EscrowAccount>,
    /// The signer, who pays for what is created.
    pub sender: Address,
    /// The holding account of the master wallet, which backs the balances.
    pub sender_token_account: Address,
    /// The holding account of the escrow, created where it is missing.
    pub escrow_token_account: HoldingAccount,
    /// The asset that the ledger keeps.
    pub mint: Address,
}

impl TipToEscrow {
    /// The error with which the accounts are refused for a tip to the
    /// escrow of `handle`, the first of those that apply: the master wallet
    /// and the sender's account have to be what their records say, the escrow
    /// has to be at the canonical address of the escrow of `handle`, and the
    /// sender's holding account has to be the holding account of the master
    /// wallet.
    pub open spec fn accounts_error(self, handle: Seq<char>) -> Option<TipBotError> {
        if master_wallet_error(self.master_wallet) is Some {
            master_wallet_error(self.master_wallet)
        } else if own_user_account_error(self.sender_user_account, self.master_wallet.key)
            is Some {
            own_user_account_error(self.sender_user_account, self.master_wallet.key)
        } else if self.escrow_bump(handle) is None {
            Some(TipBotError::AddressMismatch)
        } else if !is_associated_token_address(
            self.sender_token_account,
            self.master_wallet.key,
            self.mint,
        ) {
            Some(TipBotError::InvalidTokenAccount)
        } else {
            None
        }
    }

    /// The error with which a tip of `amount` to the escrow of `handle`
    /// fails, the first of those that apply; `None` where it succeeds.
    pub open spec fn error(self, amount: u64, handle: Seq<char>) -> Option<TipBotError> {
        if self.accounts_error(handle) is Some {
            self.accounts_error(handle)
        } else if amount == 0 {
            Some(TipBotError::InvalidAmount)
        } else if user_balance(self.sender_user_account) < amount {
            Some(TipBotError::InsufficientBalance)
        } else if escrow_kept_for_other(self.escrow_account, handle) {
            Some(TipBotError::EscrowHandleMismatch)
        } else if !is_associated_token_address(
            self.escrow_token_account.key,
            self.escrow_account.key,
            self.mint,
        ) {
            Some(TipBotError::InvalidEscrowTokenAccount)
        } else if escrow_amount(self.escrow_account) + amount > u64::MAX {
            Some(TipBotError::MathOverflow)
        } else if self.master_wallet.data->0.total_escrows == u64::MAX {
            Some(TipBotError::MathOverflow)
        } else {
            None
        }
    }

    /// The bump seed of the escrow of `handle`, where the escrow is at its
    /// canonical address.
    pub open spec fn escrow_bump(self, handle: Seq<char>) -> Option<u8> {
        spec_canonical_bump(
            spec_escrow_seeds(handle, self.master_wallet.key),
            self.escrow_account.key,
        )
    }

    /// The accounts after a tip of `amount` to the escrow of `handle`: the
    /// sender has `amount` less, the escrow is bound to the handle and holds
    /// `amount` more, and the registry counts one escrow tip more.
    pub open spec fn effect(self, amount: u64, handle: String) -> TipToEscrow {
        let wallet = self.master_wallet.data->0;
        let sender = self.sender_user_account.data->0;
        TipToEscrow {
            master_wallet: Account {
                key: self.master_wallet.key,
                data: Some(
                    MasterWallet { total_escrows: (wallet.total_escrows + 1) as u64, ..wallet },
                ),
            },
            sender_user_account: Account {
                key: self.sender_user_account.key,
                data: Some(UserAccount { balance: (sender.balance - amount) as u64, ..sender }),
            },
            escrow_account: Account {
                key: self.escrow_account.key,
                data: Some(
                    EscrowAccount {
                        recipient_twitter_handle: bound_handle(self.escrow_account, handle),
                        amount: (escrow_amount(self.escrow_account) + amount) as u64,
                        bump: self.escrow_bump(handle@)->0,
                    },
                ),
            },
            ..self
        }
    }

    /// The creation of the holding account of the escrow, asked for where
    /// that account is missing.
    pub open spec fn create(self) -> Option<Create> {
        if self.escrow_token_account.initialized {
            None
        } else {
            Some(
                Create {
                    payer: self.sender,
                    associated_token: self.escrow_token_account.key,
                    authority: self.escrow_account.key,
                    mint: self.mint,
                },
            )
        }
    }

    /// The transfer that the tip asks for: `amount` goes from the holding
    /// account of the master wallet to that of the escrow, and the master
    /// wallet authorises it.
    pub open spec fn transfer(self, amount: u64) -> TransferView {
        TransferView {
            from: self.sender_token_account,
            to: self.escrow_token_account.key,
            authority: self.master_wallet.key,
            amount,
            signer_seeds: spec_master_signer_seeds(self.master_wallet.data->0),
        }
    }
}

/// Takes `amount` from the sender and keeps it in the escrow of
/// `recipient_twitter_handle`, for the registration of that handle to claim.
pub fn tip_to_escrow(ctx: &mut TipToEscrow, amount: u64, recipient_twitter_handle: String) -> (done:
    Result<(Option<Create>, Transfer), TipBotError>)
    ensures
        match old(ctx).error(amount, recipient_twitter_handle@) {
            Some(error) => {
                &&& done matches Err(e)
                &&& e == error
                &&& *final(ctx) == *old(ctx)
            },
            None => {
                &&& done matches Ok((create, transfer))
                &&& create == old(ctx).create()
                &&& transfer@ == old(ctx).transfer(amount)
                &&& *final(ctx) == old(ctx).effect(amount, recipient_twitter_handle)
            },
        },
{
    if let Some(error) = check_master_wallet(&ctx.master_wallet) {
        return Err(error);
    }
    let master_key = ctx.master_wallet.key;
    if let Some(error) = check_own_user_account(&ctx.sender_user_account, &master_key) {
        return Err(error);
    }
    let escrow_bump = match canonical_bump(
        &escrow_seeds(recipient_twitter_handle.as_str(), &master_key),
        &ctx.escrow_account.key,
    ) {
        Some(bump) => bump,
        None => {
            return Err(TipBotError::AddressMismatch);
        },
    };
    if !is_holding_account(&ctx.sender_token_account, &master_key, &ctx.mint) {
        return Err(TipBotError::InvalidTokenAccount);
    }
    if amount == 0 {
        return Err(TipBotError::InvalidAmount);
    }
    let sender_balance = match &ctx.sender_user_account.data {
        Some(sender) => sender.balance,
        None => {
            return Err(TipBotError::AccountNotInitialized);
        },
    };
    if sender_balance < amount {
        return Err(TipBotError::InsufficientBalance);
    }
    let kept_for = match bind_escrow(&ctx.escrow_account, &recipient_twitter_handle) {
        Ok(kept) => kept,
        Err(error) => {
            return Err(error);
        },
    };
    if !is_holding_account(&ctx.escrow_token_account.key, &ctx.escrow_account.key, &ctx.mint) {
        return Err(TipBotError::InvalidEscrowTokenAccount);
    }
    let held = match &ctx.escrow_account.data {
        Some(escrow) => escrow.amount,
        None => 0,
    };
    let escrow_total = match held.checked_add(amount) {
        Some(total) => total,
        None => {
            return Err(TipBotError::MathOverflow);
        },
    };
    let (total_escrows, signer_seeds) = match &ctx.master_wallet.data {
        Some(wallet) => match wallet.total_escrows.checked_add(1) {
            Some(total) => (total, master_signer_seeds(wallet)),
            None => {
                return Err(TipBotError::MathOverflow);
            },
        },
        None => {
            return Err(TipBotError::AccountNotInitialized);
        },
    };
    let create = if ctx.escrow_token_account.initialized {
        None
    } else {
        Some(
            Create {
                payer: ctx.sender,
                associated_token: ctx.escrow_token_account.key,
                authority: ctx.escrow_account.key,
                mint: ctx.mint,
            },
        )
    };
    let transfer = Transfer {
        from: ctx.sender_token_account,
        to: ctx.escrow_token_account.key,
        authority: master_key,
        amount,
        signer_seeds,
    };
    match &mut ctx.master_wallet.data {
        Some(wallet) => {
            wallet.total_escrows = total_escrows;
        },
        None => {},
    }
    match &mut ctx.sender_user_account.data {
        Some(sender) => {
            sender.balance = sender_balance - amount;
        },
        None => {},
    }
    ctx.escrow_account.data = Some(
        EscrowAccount { recipient_twitter_handle: kept_for, amount: escrow_total, bump: escrow_bump },
    );
    Ok((create, transfer))
}

} // verus!
