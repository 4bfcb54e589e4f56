//! The token instructions that an instruction of the ledger asks for.
//!
//! The ledger keeps the books; the funds lie in holding accounts of the token
//! program. An instruction that succeeds names the invocations that make the
//! funds follow the books. The caller performs them in the same transaction,
//! so that the books and the funds change together or not at all.

use crate::address::Address;
use crate::pda::seeds_view;
use vstd::prelude::*;

verus! {

/// Creates the holding account of `authority` for `mint` at
/// `associated_token`, at the cost of `payer`.
#[derive(Clone, Copy, Debug, PartialEq, Eq)]
pub struct Create {
    pub payer: Address,
    pub associated_token: Address,
    pub authority: Address,
    pub mint: Address,
}

/// Moves `amount` from the holding account `from` to the holding account
/// `to`. `authority` authorises it: as a signer of the transaction where
/// `signer_seeds` is empty, else as the address that the program derives from
/// these seeds, the bump seed last.
#[derive(Clone, Debug, PartialEq, Eq)]
pub struct Transfer {
    pub from: Address,
    pub to: Address,
    pub authority: Address,
    pub amount: u64,
    pub signer_seeds: Vec<Vec<u8>>,
}

/// A transfer with its seeds as sequences of bytes.
pub struct TransferView {
    pub from: Address,
    pub to: Address,
    pub authority: Address,
    pub amount: u64,
    pub signer_seeds: Seq<Seq<u8>>,
}

impl TransferView {
    /// What the transfer brings into a holding account: the amount where it
    /// goes to the account, less the amount where it comes from the account.
    pub open spec fn brings_into(self, holding: Address) -> int {
        (if self.to == holding {
            self.amount as int
        } else {
            0
        }) - (if self.from == holding {
            self.amount as int
        } else {
            0
        })
    }
}

impl View for Transfer {
    type V = TransferView;

    open spec fn view(&self) -> TransferView {
        TransferView {
            from: self.from,
            to: self.to,
            authority: self.authority,
            amount: self.amount,
            signer_seeds: seeds_view(self.signer_seeds),
        }
    }
}

} // verus!
