//! The books as a whole: every record of the ledger at its address, and what
//! a run of instructions does to their sum.
//!
//! An instruction sees the few accounts that it is handed. What is stored
//! between instructions is modelled here: three maps from addresses to
//! records. An instruction is applied by reading its accounts from the maps,
//! taking the step that the instruction's contract describes, and writing the
//! accounts back, where it succeeded.

use crate::accounts::{escrow_amount, user_balance, Account};
use crate::address::Address;
use crate::instructions::deposit::Deposit;
use crate::instructions::initialize::Initialize;
use crate::instructions::register_user::RegisterUser;
use crate::instructions::tip::Tip;
use crate::instructions::tip_to_escrow::TipToEscrow;
use crate::instructions::withdraw::Withdraw;
use crate::state::{EscrowAccount, MasterWallet, UserAccount};
use vstd::prelude::*;

verus! {

/// The sum of the values of a finite map.
pub open spec fn sum(values: Map<Address, int>) -> int
    decreases values.dom().len(),
    when values.dom().finite()
{
    if values.dom().len() == 0 {
        0
    } else {
        let key = values.dom().choose();
        values[key] + sum(values.remove(key))
    }
}

/// The sum of a map is the value at any one of its keys and the sum of the
/// rest.
pub proof fn lemma_sum_remove(values: Map<Address, int>, key: Address)
    requires
        values.dom().finite(),
        values.dom().contains(key),
    ensures
        sum(values) == values[key] + sum(values.remove(key)),
    decreases values.dom().len(),
{
    let chosen = values.dom().choose();
    if chosen != key {
        let rest = values.remove(chosen);
        lemma_sum_remove(rest, key);
        let other = values.remove(key);
        lemma_sum_remove(other, chosen);
        assert(rest.remove(key) =~= other.remove(chosen));
    }
}

/// Writing a value into a map changes the sum by the difference to what was
/// there.
pub proof fn lemma_sum_insert(values: Map<Address, int>, key: Address, value: int)
    requires
        values.dom().finite(),
    ensures
        sum(values.insert(key, value)) == sum(values) + value - (if values.dom().contains(key) {
            values[key]
        } else {
            0
        }),
{
    let written = values.insert(key, value);
    lemma_sum_remove(written, key);
    assert(written.remove(key) =~= values.remove(key));
    if values.dom().contains(key) {
        lemma_sum_remove(values, key);
    } else {
        assert(values.remove(key) =~= values);
    }
}

/// Every record of the ledger, at its address.
pub struct Books {
    pub master_wallets: Map<Address, MasterWallet>,
    pub users: Map<Address, UserAccount>,
    pub escrows: Map<Address, EscrowAccount>,
}

/// An instruction with its arguments. The records in its accounts do not
/// count: they are read from the books when the instruction is applied.
pub enum Instruction {
    Initialize(Initialize),
    RegisterUser(RegisterUser, String),
    Deposit(Deposit, u64),
    Tip(Tip, u64, String),
    TipToEscrow(TipToEscrow, u64, String),
    Withdraw(Withdraw, u64),
}

impl Books {
    /// The books hold finitely many accounts.
    pub open spec fn wf(self) -> bool {
        self.users.dom().finite() && self.escrows.dom().finite()
    }

    /// What the books hold at the address of a master wallet.
    pub open spec fn master_wallet_at(self, key: Address) -> Account<MasterWallet> {
        Account {
            key,
            data: if self.master_wallets.dom().contains(key) {
                Some(self.master_wallets[key])
            } else {
                None
            },
        }
    }

    /// What the books hold at the address of a user account.
    pub open spec fn user_at(self, key: Address) -> Account<UserAccount> {
        Account {
            key,
            data: if self.users.dom().contains(key) {
                Some(self.users[key])
            } else {
                None
            },
        }
    }

    /// What the books hold at the address of an escrow.
    pub open spec fn escrow_at(self, key: Address) -> Account<EscrowAccount> {
        Account {
            key,
            data: if self.escrows.dom().contains(key) {
                Some(self.escrows[key])
            } else {
                None
            },
        }
    }

    /// The books with the record of a master wallet written back.
    pub open spec fn with_master_wallet(self, account: Account<MasterWallet>) -> Books {
        match account.data {
            Some(wallet) => Books {
                master_wallets: self.master_wallets.insert(account.key, wallet),
                ..self
            },
            None => self,
        }
    }

    /// The books with the record of a user written back.
    pub open spec fn with_user(self, account: Account<UserAccount>) -> Books {
        match account.data {
            Some(user) => Books { users: self.users.insert(account.key, user), ..self },
            None => self,
        }
    }

    /// The books with the record of an escrow written back.
    pub open spec fn with_escrow(self, account: Account<EscrowAccount>) -> Books {
        match account.data {
            Some(escrow) => Books { escrows: self.escrows.insert(account.key, escrow), ..self },
            None => self,
        }
    }

    /// The balance of every user.
    pub open spec fn balances(self) -> Map<Address, int> {
        Map::new(|key: Address| self.users.dom().contains(key), |key: Address| self.users[key].balance as int)
    }

    /// The amount in every escrow.
    pub open spec fn amounts(self) -> Map<Address, int> {
        Map::new(|key: Address| self.escrows.dom().contains(key), |key: Address| self.escrows[key].amount as int)
    }

    /// All that the ledger owes: the balances of its users and what its
    /// escrows hold.
    pub open spec fn total(self) -> int {
        sum(self.balances()) + sum(self.amounts())
    }

    /// The instruction with the records that the books hold at the addresses
    /// of its accounts.
    pub open spec fn load(self, instruction: Instruction) -> Instruction {
        match instruction {
            Instruction::Initialize(accounts) => Instruction::Initialize(
                Initialize {
                    master_wallet: self.master_wallet_at(accounts.master_wallet.key),
                    ..accounts
                },
            ),
            Instruction::RegisterUser(accounts, handle) => Instruction::RegisterUser(
                RegisterUser {
                    master_wallet: self.master_wallet_at(accounts.master_wallet.key),
                    user_account: self.user_at(accounts.user_account.key),
                    escrow_account: self.escrow_at(accounts.escrow_account.key),
                    ..accounts
                },
                handle,
            ),
            Instruction::Deposit(accounts, amount) => Instruction::Deposit(
                Deposit {
                    master_wallet: self.master_wallet_at(accounts.master_wallet.key),
                    user_account: self.user_at(accounts.user_account.key),
                    ..accounts
                },
                amount,
            ),
            Instruction::Tip(accounts, amount, handle) => Instruction::Tip(
                Tip {
                    master_wallet: self.master_wallet_at(accounts.master_wallet.key),
                    sender_user_account: self.user_at(accounts.sender_user_account.key),
                    recipient_user_account: self.user_at(accounts.recipient_user_account.key),
                    ..accounts
                },
                amount,
                handle,
            ),
            Instruction::TipToEscrow(accounts, amount, handle) => Instruction::TipToEscrow(
                TipToEscrow {
                    master_wallet: self.master_wallet_at(accounts.master_wallet.key),
                    sender_user_account: self.user_at(accounts.sender_user_account.key),
                    escrow_account: self.escrow_at(accounts.escrow_account.key),
                    ..accounts
                },
                amount,
                handle,
            ),
            Instruction::Withdraw(accounts, amount) => Instruction::Withdraw(
                Withdraw {
                    master_wallet: self.master_wallet_at(accounts.master_wallet.key),
                    user_account: self.user_at(accounts.user_account.key),
                    ..accounts
                },
                amount,
            ),
        }
    }

    /// Whether the instruction succeeds on the books.
    pub open spec fn accepts(self, instruction: Instruction) -> bool {
        match self.load(instruction) {
            Instruction::Initialize(ctx) => ctx.error() is None,
            Instruction::RegisterUser(ctx, handle) => ctx.error(handle@) is None,
            Instruction::Deposit(ctx, amount) => ctx.error(amount) is None,
            Instruction::Tip(ctx, amount, handle) => ctx.error(amount, handle@) is None,
            Instruction::TipToEscrow(ctx, amount, handle) => ctx.error(amount, handle@) is None,
            Instruction::Withdraw(ctx, amount) => ctx.error(amount) is None,
        }
    }

    /// The books after the instruction: as they were where it fails, and
    /// with the accounts of the instruction written back, in their order in
    /// the instruction, where it succeeds.
    pub open spec fn apply(self, instruction: Instruction) -> Books {
        if !self.accepts(instruction) {
            self
        } else {
            match self.load(instruction) {
                Instruction::Initialize(ctx) => self.with_master_wallet(ctx.effect().master_wallet),
                Instruction::RegisterUser(ctx, handle) => {
                    let after = ctx.effect(handle);
                    self.with_master_wallet(after.master_wallet).with_user(
                        after.user_account,
                    ).with_escrow(after.escrow_account)
                },
                Instruction::Deposit(ctx, amount) => self.with_user(ctx.effect(amount).user_account),
                Instruction::Tip(ctx, amount, handle) => {
                    let after = ctx.effect(amount);
                    self.with_user(after.sender_user_account).with_user(
                        after.recipient_user_account,
                    )
                },
                Instruction::TipToEscrow(ctx, amount, handle) => {
                    let after = ctx.effect(amount, handle);
                    self.with_master_wallet(after.master_wallet).with_user(
                        after.sender_user_account,
                    ).with_escrow(after.escrow_account)
                },
                Instruction::Withdraw(ctx, amount) => self.with_user(
                    ctx.effect(amount).user_account,
                ),
            }
        }
    }

    /// What the instruction brings into the ledger from outside: the amount
    /// of a deposit that succeeds, less the amount of a withdrawal that
    /// succeeds.
    pub open spec fn inflow(self, instruction: Instruction) -> int {
        if !self.accepts(instruction) {
            0
        } else {
            match instruction {
                Instruction::Deposit(_, amount) => amount as int,
                Instruction::Withdraw(_, amount) => -(amount as int),
                _ => 0,
            }
        }
    }

    /// The books after the instructions, applied one after the other.
    pub open spec fn run(self, instructions: Seq<Instruction>) -> Books
        decreases instructions.len(),
    {
        if instructions.len() == 0 {
            self
        } else {
            self.run(instructions.drop_last()).apply(instructions.last())
        }
    }

    /// What the instructions bring into the ledger from outside, one after
    /// the other.
    pub open spec fn net_inflow(self, instructions: Seq<Instruction>) -> int
        decreases instructions.len(),
    {
        if instructions.len() == 0 {
            0
        } else {
            self.net_inflow(instructions.drop_last()) + self.run(instructions.drop_last()).inflow(
                instructions.last(),
            )
        }
    }

    /// Writing back the record of a user changes the total by the change of
    /// the balance at its address.
    pub proof fn lemma_with_user(self, account: Account<UserAccount>)
        requires
            self.wf(),
        ensures
            self.with_user(account).wf(),
            self.with_user(account).escrows == self.escrows,
            account.data is Some ==> self.with_user(account).total() == self.total() + user_balance(
                account,
            ) - user_balance(self.user_at(account.key)),
            account.data is None ==> self.with_user(account) == self,
    {
        if account.data is Some {
            let written = self.with_user(account);
            assert(self.balances().dom() =~= self.users.dom());
            assert(written.balances() =~= self.balances().insert(
                account.key,
                user_balance(account) as int,
            ));
            lemma_sum_insert(self.balances(), account.key, user_balance(account) as int);
        }
    }

    /// Writing back the record of an escrow changes the total by the change
    /// of the amount at its address.
    pub proof fn lemma_with_escrow(self, account: Account<EscrowAccount>)
        requires
            self.wf(),
        ensures
            self.with_escrow(account).wf(),
            self.with_escrow(account).users == self.users,
            account.data is Some ==> self.with_escrow(account).total() == self.total()
                + escrow_amount(account) - escrow_amount(self.escrow_at(account.key)),
            account.data is None ==> self.with_escrow(account) == self,
    {
        if account.data is Some {
            let written = self.with_escrow(account);
            assert(self.amounts().dom() =~= self.escrows.dom());
            assert(written.amounts() =~= self.amounts().insert(
                account.key,
                escrow_amount(account) as int,
            ));
            lemma_sum_insert(self.amounts(), account.key, escrow_amount(account) as int);
        }
    }

    /// One instruction changes the total of the books by what it brings in
    /// from outside, and by nothing else.
    pub proof fn law_conservation_step(self, instruction: Instruction)
        requires
            self.wf(),
        ensures
            self.apply(instruction).wf(),
            self.apply(instruction).total() == self.total() + self.inflow(instruction),
    {
        if self.accepts(instruction) {
            match self.load(instruction) {
                Instruction::Initialize(ctx) => {},
                Instruction::RegisterUser(ctx, handle) => {
                    let after = ctx.effect(handle);
                    let first = self.with_master_wallet(after.master_wallet);
                    first.lemma_with_user(after.user_account);
                    let second = first.with_user(after.user_account);
                    second.lemma_with_escrow(after.escrow_account);
                },
                Instruction::Deposit(ctx, amount) => {
                    self.lemma_with_user(ctx.effect(amount).user_account);
                },
                Instruction::Tip(ctx, amount, handle) => {
                    let after = ctx.effect(amount);
                    self.lemma_with_user(after.sender_user_account);
                    let first = self.with_user(after.sender_user_account);
                    first.lemma_with_user(after.recipient_user_account);
                },
                Instruction::TipToEscrow(ctx, amount, handle) => {
                    let after = ctx.effect(amount, handle);
                    let first = self.with_master_wallet(after.master_wallet);
                    first.lemma_with_user(after.sender_user_account);
                    let second = first.with_user(after.sender_user_account);
                    second.lemma_with_escrow(after.escrow_account);
                },
                Instruction::Withdraw(ctx, amount) => {
                    self.lemma_with_user(ctx.effect(amount).user_account);
                },
            }
        }
    }

    /// Conservation: whatever instructions run on the books, in whatever
    /// order, the balances of the users and the amounts in the escrows add up
    /// to what they added up to before, and what deposits brought in, less
    /// what withdrawals took out.
    pub proof fn law_conservation(self, instructions: Seq<Instruction>)
        requires
            self.wf(),
        ensures
            self.run(instructions).wf(),
            self.run(instructions).total() == self.total() + self.net_inflow(instructions),
        decreases instructions.len(),
    {
        if instructions.len() > 0 {
            self.law_conservation(instructions.drop_last());
            self.run(instructions.drop_last()).law_conservation_step(instructions.last());
        }
    }
}

} // verus!
