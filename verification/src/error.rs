//! The errors with which an instruction fails.

use vstd::prelude::*;

verus! {

/// Why an instruction was refused. Every error is final: the instruction has
/// changed nothing.
#[derive(Clone, Copy, Debug, PartialEq, Eq, Structural)]
pub enum TipBotError {
    /// The handle is longer than 32 bytes.
    HandleTooLong,
    /// The amount is zero where value has to move.
    InvalidAmount,
    /// The debit is greater than the balance.
    InsufficientBalance,
    /// The handle is not the one that the record is bound to.
    EscrowHandleMismatch,
    /// The holding account of the escrow is not the one derived for it.
    InvalidEscrowTokenAccount,
    /// A counter or a balance would leave the range of 64 bits.
    MathOverflow,
    /// The address of a record is not the one derived for it.
    AddressMismatch,
    /// The signer is not the owner of the user account.
    OwnerMismatch,
    /// A holding account is not the one derived for its wallet and mint.
    InvalidTokenAccount,
    /// Nothing is stored at the address of a record that the instruction reads.
    AccountNotInitialized,
    /// A record is stored already at the address where one is to be created.
    AccountAlreadyInitialized,
}

impl TipBotError {
    /// The message of each error.
    pub open spec fn spec_message(self) -> Seq<char> {
        match self {
            TipBotError::HandleTooLong => "Twitter handle too long"@,
            TipBotError::InvalidAmount => "Invalid amount"@,
            TipBotError::InsufficientBalance => "Insufficient balance"@,
            TipBotError::EscrowHandleMismatch => "Escrow handle mismatch"@,
            TipBotError::InvalidEscrowTokenAccount => "Invalid escrow token account"@,
            TipBotError::MathOverflow => "Math overflow"@,
            TipBotError::AddressMismatch => "Account address mismatch"@,
            TipBotError::OwnerMismatch => "Owner mismatch"@,
            TipBotError::InvalidTokenAccount => "Invalid token account"@,
            TipBotError::AccountNotInitialized => "Account not initialized"@,
            TipBotError::AccountAlreadyInitialized => "Account already initialized"@,
        }
    }

    /// The message of the error.
    pub fn message(&self) -> (text: &'static str)
        ensures
            text@ == self.spec_message(),
    {
        match self {
            TipBotError::HandleTooLong => "Twitter handle too long",
            TipBotError::InvalidAmount => "Invalid amount",
            TipBotError::InsufficientBalance => "Insufficient balance",
            TipBotError::EscrowHandleMismatch => "Escrow handle mismatch",
            TipBotError::InvalidEscrowTokenAccount => "Invalid escrow token account",
            TipBotError::MathOverflow => "Math overflow",
            TipBotError::AddressMismatch => "Account address mismatch",
            TipBotError::OwnerMismatch => "Owner mismatch",
            TipBotError::InvalidTokenAccount => "Invalid token account",
            TipBotError::AccountNotInitialized => "Account not initialized",
            TipBotError::AccountAlreadyInitialized => "Account already initialized",
        }
    }
}

} // verus!
