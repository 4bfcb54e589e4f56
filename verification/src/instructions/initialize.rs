//! The creation of a master wallet.

use crate::accounts::{canonical_bump, spec_canonical_bump, Account};
use crate::address::Address;
use crate::error::TipBotError;
use crate::pda::{master_wallet_seeds, spec_master_wallet_seeds};
use crate::state::MasterWallet;
use vstd::prelude::*;

verus! {

/// The accounts of an initialisation.
#[derive(Clone, Debug, PartialEq, Eq)]
pub struct Initialize {
    /// Where the master wallet is created.
    pub master_wallet: Account<MasterWallet>,
    /// The signer, who controls the master wallet from now on.
    pub authority: Address,
}

impl Initialize {
    /// The bump seed of the master wallet, where the account is at the
    /// canonical address of the authority's master wallet.
    pub open spec fn bump(self) -> Option<u8> {
        spec_canonical_bump(spec_master_wallet_seeds(self.authority), self.master_wallet.key)
    }

    /// The error with which the initialisation fails, the first of those that
    /// apply; `None` where it succeeds.
    pub open spec fn error(self) -> Option<TipBotError> {
        if self.bump() is None {
            Some(TipBotError::AddressMismatch)
        } else if self.master_wallet.data is Some {
            Some(TipBotError::AccountAlreadyInitialized)
        } else {
            None
        }
    }

    /// The accounts after the initialisation: the master wallet exists,
    /// belongs to the authority and has counted nothing.
    pub open spec fn effect(self) -> Initialize {
        Initialize {
            master_wallet: Account {
                key: self.master_wallet.key,
                data: Some(
                    MasterWallet {
                        authority: self.authority,
                        total_users: 0,
                        total_escrows: 0,
                        bump: self.bump()->0,
                    },
                ),
            },
            ..self
        }
    }
}

/// Creates the master wallet of the authority.
pub fn initialize(ctx: &mut Initialize) -> (done: Result<(), TipBotError>)
    ensures
        match old(ctx).error() {
            Some(error) => {
                &&& done matches Err(e)
                &&& e == error
                &&& *final(ctx) == *old(ctx)
            },
            None => {
                &&& done is Ok
                &&& *final(ctx) == old(ctx).effect()
            },
        },
{
    let bump = match canonical_bump(&master_wallet_seeds(&ctx.authority), &ctx.master_wallet.key) {
        Some(bump) => bump,
        None => {
            return Err(TipBotError::AddressMismatch);
        },
    };
    if ctx.master_wallet.data.is_some() {
        return Err(TipBotError::AccountAlreadyInitialized);
    }
    ctx.master_wallet.data = Some(
        MasterWallet { authority: ctx.authority, total_users: 0, total_escrows: 0, bump },
    );
    Ok(())
}

} // verus!
