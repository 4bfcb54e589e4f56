//! Registration of a handle.

use crate::accounts::{
    bind_escrow, bound_handle, canonical_bump, check_master_wallet, escrow_amount,
    escrow_kept_for_other, is_holding_account, master_wallet_error, spec_canonical_bump, Account,
    HoldingAccount,
};
use crate::address::Address;
use crate::cpi::{Create, Transfer, TransferView};
use crate::error::TipBotError;
use crate::pda::{
    escrow_seeds, is_associated_token_address, push_bump, spec_escrow_seeds, spec_user_seeds,
    user_seeds, with_bump,
};
use crate::state::{handle_fits, handle_len, EscrowAccount, MasterWallet, UserAccount, MAX_HANDLE_LEN};
use vstd::prelude::*;

verus! {

/// The accounts of a registration.
#[derive(Clone, Debug, PartialEq, Eq)]
pub struct RegisterUser {
    /// The registry that the handle is registered under.
    pub master_wallet: Account<MasterWallet>,
    /// Where the account of the handle is created.
    pub user_account: Account<UserAccount>,
    /// The signer, who becomes the owner of the account and pays for it.
    pub owner: Address,
    /// The holding account of the master wallet, which backs the balances.
    pub user_token_account: HoldingAccount,
    /// The escrow of the handle, created here where no tip has created it.
    pub escrow_account: Account<EscrowAccount>,
    /// The holding account of the escrow.
    pub escrow_token_account: Address,
    /// The asset that the ledger keeps.
    pub mint: Address,
}

impl RegisterUser {
    /// The error with which the accounts are refused for the registration
    /// of `handle`, the first of those that apply: the master wallet has to
    /// be what its record says, the new account has to be at the canonical
    /// address of the account of `handle` and to hold nothing yet, the user's
    /// holding account has to be the holding account of the master wallet,
    /// and the escrow has to be at the canonical address of the escrow of
    /// `handle`.
    pub open spec fn accounts_error(self, handle: Seq<char>) -> Option<TipBotError> {
        if master_wallet_error(self.master_wallet) is Some {
            master_wallet_error(self.master_wallet)
        } else if self.user_bump(handle) is None {
            Some(TipBotError::AddressMismatch)
        } else if self.user_account.data is Some {
            Some(TipBotError::AccountAlreadyInitialized)
        } else if !is_associated_token_address(
            self.user_token_account.key,
            self.master_wallet.key,
            self.mint,
        ) {
            Some(TipBotError::InvalidTokenAccount)
        } else if self.escrow_bump(handle) is None {
            Some(TipBotError::AddressMismatch)
        } else {
            None
        }
    }

    /// The error with which the registration of `handle` fails, the first of
    /// those that apply; `None` where it succeeds.
    pub open spec fn error(self, handle: Seq<char>) -> Option<TipBotError> {
        if handle_len(handle) > MAX_HANDLE_LEN {
            Some(TipBotError::HandleTooLong)
        } else if self.accounts_error(handle) is Some {
            self.accounts_error(handle)
        } else if self.master_wallet.data->0.total_users == u64::MAX {
            Some(TipBotError::MathOverflow)
        } else if escrow_kept_for_other(self.escrow_account, handle) {
            Some(TipBotError::EscrowHandleMismatch)
        } else if !is_associated_token_address(
            self.escrow_token_account,
            self.escrow_account.key,
            self.mint,
        ) {
            Some(TipBotError::InvalidEscrowTokenAccount)
        } else {
            None
        }
    }

    /// The bump seed of the account of `handle`, where the account is at its
    /// canonical address.
    pub open spec fn user_bump(self, handle: Seq<char>) -> Option<u8> {
        spec_canonical_bump(spec_user_seeds(handle, self.master_wallet.key), self.user_account.key)
    }

    /// The bump seed of the escrow of `handle`, where the escrow is at its
    /// canonical address.
    pub open spec fn escrow_bump(self, handle: Seq<char>) -> Option<u8> {
        spec_canonical_bump(
            spec_escrow_seeds(handle, self.master_wallet.key),
            self.escrow_account.key,
        )
    }

    /// The accounts after the registration of `handle`: the registry counts
    /// one user more, the account of the handle exists and holds what the
    /// escrow held, and the escrow is bound to the handle and empty.
    pub open spec fn effect(self, handle: String) -> RegisterUser {
        let wallet = self.master_wallet.data->0;
        let claimed = escrow_amount(self.escrow_account);
        RegisterUser {
            master_wallet: Account {
                key: self.master_wallet.key,
                data: Some(MasterWallet { total_users: (wallet.total_users + 1) as u64, ..wallet }),
            },
            user_account: Account {
                key: self.user_account.key,
                data: Some(
                    UserAccount {
                        twitter_handle: handle,
                        owner: self.owner,
                        balance: claimed,
                        escrow_balance: claimed,
                        bump: self.user_bump(handle@)->0,
                    },
                ),
            },
            escrow_account: Account {
                key: self.escrow_account.key,
                data: Some(
                    EscrowAccount {
                        recipient_twitter_handle: bound_handle(self.escrow_account, handle),
                        amount: 0,
                        bump: self.escrow_bump(handle@)->0,
                    },
                ),
            },
            ..self
        }
    }

    /// The creation of the holding account of the master wallet, asked for
    /// where that account is missing.
    pub open spec fn create(self) -> Option<Create> {
        if self.user_token_account.initialized {
            None
        } else {
            Some(
                Create {
                    payer: self.owner,
                    associated_token: self.user_token_account.key,
                    authority: self.master_wallet.key,
                    mint: self.mint,
                },
            )
        }
    }

    /// The transfer that claims the escrow, asked for where the escrow holds
    /// anything: all of it goes from the holding account of the escrow to
    /// that of the master wallet, and the escrow authorises it.
    pub open spec fn claim(self, handle: Seq<char>) -> Option<TransferView> {
        if escrow_amount(self.escrow_account) > 0 {
            Some(
                TransferView {
                    from: self.escrow_token_account,
                    to: self.user_token_account.key,
                    authority: self.escrow_account.key,
                    amount: escrow_amount(self.escrow_account),
                    signer_seeds: with_bump(
                        spec_escrow_seeds(handle, self.master_wallet.key),
                        self.escrow_bump(handle)->0,
                    ),
                },
            )
        } else {
            None
        }
    }
}

/// The transfer that a registration asks for, with its seeds as sequences.
pub open spec fn claim_view(claim: Option<Transfer>) -> Option<TransferView> {
    match claim {
        Some(transfer) => Some(transfer@),
        None => None,
    }
}

/// Registers `twitter_handle` for the owner, and claims for the new account
/// what the escrow of the handle holds.
pub fn register_user(ctx: &mut RegisterUser, twitter_handle: String) -> (done: Result<
    (Option<Create>, Option<Transfer>),
    TipBotError,
>)
    ensures
        match old(ctx).error(twitter_handle@) {
            Some(error) => {
                &&& done matches Err(e)
                &&& e == error
                &&& *final(ctx) == *old(ctx)
            },
            None => {
                &&& done matches Ok((create, claim))
                &&& create == old(ctx).create()
                &&& claim_view(claim) == old(ctx).claim(twitter_handle@)
                &&& *final(ctx) == old(ctx).effect(twitter_handle)
            },
        },
{
    if !handle_fits(twitter_handle.as_str()) {
        return Err(TipBotError::HandleTooLong);
    }
    if let Some(error) = check_master_wallet(&ctx.master_wallet) {
        return Err(error);
    }
    let master_key = ctx.master_wallet.key;
    let user_bump = match canonical_bump(
        &user_seeds(twitter_handle.as_str(), &master_key),
        &ctx.user_account.key,
    ) {
        Some(bump) => bump,
        None => {
            return Err(TipBotError::AddressMismatch);
        },
    };
    if ctx.user_account.data.is_some() {
        return Err(TipBotError::AccountAlreadyInitialized);
    }
    if !is_holding_account(&ctx.user_token_account.key, &master_key, &ctx.mint) {
        return Err(TipBotError::InvalidTokenAccount);
    }
    let seeds = escrow_seeds(twitter_handle.as_str(), &master_key);
    let escrow_bump = match canonical_bump(&seeds, &ctx.escrow_account.key) {
        Some(bump) => bump,
        None => {
            return Err(TipBotError::AddressMismatch);
        },
    };
    let total_users = match &ctx.master_wallet.data {
        Some(wallet) => match wallet.total_users.checked_add(1) {
            Some(total) => total,
            None => {
                return Err(TipBotError::MathOverflow);
            },
        },
        None => {
            return Err(TipBotError::AccountNotInitialized);
        },
    };
    let kept_for = match bind_escrow(&ctx.escrow_account, &twitter_handle) {
        Ok(kept) => kept,
        Err(error) => {
            return Err(error);
        },
    };
    if !is_holding_account(&ctx.escrow_token_account, &ctx.escrow_account.key, &ctx.mint) {
        return Err(TipBotError::InvalidEscrowTokenAccount);
    }
    let claimed = match &ctx.escrow_account.data {
        Some(escrow) => escrow.amount,
        None => 0,
    };
    let create = if ctx.user_token_account.initialized {
        None
    } else {
        Some(
            Create {
                payer: ctx.owner,
                associated_token: ctx.user_token_account.key,
                authority: master_key,
                mint: ctx.mint,
            },
        )
    };
    let claim = if claimed > 0 {
        Some(
            Transfer {
                from: ctx.escrow_token_account,
                to: ctx.user_token_account.key,
                authority: ctx.escrow_account.key,
                amount: claimed,
                signer_seeds: push_bump(seeds, escrow_bump),
            },
        )
    } else {
        None
    };
    match &mut ctx.master_wallet.data {
        Some(wallet) => {
            wallet.total_users = total_users;
        },
        None => {},
    }
    ctx.user_account.data = Some(
        UserAccount {
            twitter_handle,
            owner: ctx.owner,
            balance: claimed,
            escrow_balance: claimed,
            bump: user_bump,
        },
    );
    ctx.escrow_account.data = Some(
        EscrowAccount { recipient_twitter_handle: kept_for, amount: 0, bump: escrow_bump },
    );
    Ok((create, claim))
}

} // verus!
