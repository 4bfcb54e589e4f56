//! What holds of the instructions together.

use crate::accounts::{
    escrow_amount, escrow_kept_for_other, master_wallet_error, own_user_account_error,
    user_balance,
};
use crate::address::Address;
use crate::books::{Books, Instruction};
use crate::error::TipBotError;
use crate::instructions::deposit::Deposit;
use crate::instructions::initialize::Initialize;
use crate::instructions::register_user::RegisterUser;
use crate::instructions::tip::Tip;
use crate::instructions::tip_to_escrow::TipToEscrow;
use crate::instructions::withdraw::Withdraw;
use crate::pda::{
    derives, is_associated_token_address, is_canonical, seeds_fit, spec_escrow_seeds,
    spec_find_program_address, spec_master_wallet_seeds, spec_user_seeds, ID, MAX_SEED_LEN,
};
use crate::state::{handle_len, EscrowAccount, MasterWallet, UserAccount, MAX_HANDLE_LEN};
use vstd::prelude::*;
use vstd::utf8::encode_utf8;

verus! {

/// A derivation is a function of its seeds: two addresses that are canonical
/// for the same seeds are the same address, with the same bump seed.
pub proof fn law_one_address_per_seeds(
    seeds: Seq<Seq<u8>>,
    program_id: Seq<u8>,
    first: Address,
    first_bump: u8,
    second: Address,
    second_bump: u8,
)
    requires
        is_canonical(seeds, program_id, first, first_bump),
        is_canonical(seeds, program_id, second, second_bump),
    ensures
        first == second,
        first_bump == second_bump,
{
    Address::lemma_seed_injective(first, second);
}

/// A derivation hashes its seeds one after the other, so that two lists of
/// seeds with the same bytes in a row derive the same address. The seeds of
/// the ledger leave no such doubt: the bytes of the seeds of a master wallet,
/// of a user account and of an escrow begin differently, and the bytes of two
/// accounts of one kind are the same only where they are made for the same
/// authority, or for the same handle under the same master wallet.
pub proof fn law_seeds_in_a_row_tell_accounts_apart(
    authority: Address,
    other_authority: Address,
    handle: Seq<char>,
    master_wallet: Address,
    other_handle: Seq<char>,
    other_master_wallet: Address,
)
    ensures
        spec_master_wallet_seeds(authority).flatten() != spec_user_seeds(
            handle,
            master_wallet,
        ).flatten(),
        spec_master_wallet_seeds(authority).flatten() != spec_escrow_seeds(
            handle,
            master_wallet,
        ).flatten(),
        spec_user_seeds(handle, master_wallet).flatten() != spec_escrow_seeds(
            other_handle,
            other_master_wallet,
        ).flatten(),
        spec_master_wallet_seeds(authority).flatten() == spec_master_wallet_seeds(
            other_authority,
        ).flatten() ==> authority == other_authority,
        spec_user_seeds(handle, master_wallet).flatten() == spec_user_seeds(
            other_handle,
            other_master_wallet,
        ).flatten() ==> handle == other_handle && master_wallet == other_master_wallet,
        spec_escrow_seeds(handle, master_wallet).flatten() == spec_escrow_seeds(
            other_handle,
            other_master_wallet,
        ).flatten() ==> handle == other_handle && master_wallet == other_master_wallet,
{
    reveal_strlit("master_wallet");
    reveal_strlit("user");
    reveal_strlit("escrow");
    vstd::utf8::is_ascii_chars_encode_utf8("master_wallet"@);
    vstd::utf8::is_ascii_chars_encode_utf8("user"@);
    vstd::utf8::is_ascii_chars_encode_utf8("escrow"@);
    vstd::utf8::encode_utf8_decode_utf8(handle);
    vstd::utf8::encode_utf8_decode_utf8(other_handle);
    Address::lemma_seed_injective(authority, other_authority);
    Address::lemma_seed_injective(master_wallet, other_master_wallet);
    lemma_three_in_a_row(encode_utf8("user"@), encode_utf8(handle), master_wallet.seed());
    lemma_three_in_a_row(
        encode_utf8("user"@),
        encode_utf8(other_handle),
        other_master_wallet.seed(),
    );
    lemma_three_in_a_row(encode_utf8("escrow"@), encode_utf8(handle), master_wallet.seed());
    lemma_three_in_a_row(
        encode_utf8("escrow"@),
        encode_utf8(other_handle),
        other_master_wallet.seed(),
    );
    let wallet = spec_master_wallet_seeds(authority);
    let other_wallet = spec_master_wallet_seeds(other_authority);
    let tag = encode_utf8("master_wallet"@);
    lemma_two_in_a_row(tag, authority.seed());
    lemma_two_in_a_row(tag, other_authority.seed());
    assert(wallet.flatten()[0] == 109);
    assert(spec_user_seeds(handle, master_wallet).flatten()[0] == 117);
    assert(spec_escrow_seeds(handle, master_wallet).flatten()[0] == 101);
    assert(spec_escrow_seeds(other_handle, other_master_wallet).flatten()[0] == 101);
    if wallet.flatten() == other_wallet.flatten() {
        assert(authority.seed() =~= wallet.flatten().subrange(13, 45));
        assert(other_authority.seed() =~= other_wallet.flatten().subrange(13, 45));
    }
    if spec_user_seeds(handle, master_wallet).flatten() == spec_user_seeds(
        other_handle,
        other_master_wallet,
    ).flatten() {
        lemma_handle_and_wallet_in_a_row(
            encode_utf8("user"@),
            encode_utf8(handle),
            master_wallet.seed(),
            encode_utf8(other_handle),
            other_master_wallet.seed(),
        );
    }
    if spec_escrow_seeds(handle, master_wallet).flatten() == spec_escrow_seeds(
        other_handle,
        other_master_wallet,
    ).flatten() {
        lemma_handle_and_wallet_in_a_row(
            encode_utf8("escrow"@),
            encode_utf8(handle),
            master_wallet.seed(),
            encode_utf8(other_handle),
            other_master_wallet.seed(),
        );
    }
}

/// Three seeds in a row are the first, then the second, then the third.
proof fn lemma_three_in_a_row(first: Seq<u8>, second: Seq<u8>, third: Seq<u8>)
    ensures
        seq![first, second, third].flatten() == first + second + third,
{
    let none = Seq::<Seq<u8>>::empty();
    none.lemma_flatten_push(first);
    none.push(first).lemma_flatten_push(second);
    none.push(first).push(second).lemma_flatten_push(third);
    assert(seq![first, second, third] =~= none.push(first).push(second).push(third));
    assert(none.flatten() + first =~= first);
}

/// Two seeds in a row are the first, then the second.
proof fn lemma_two_in_a_row(first: Seq<u8>, second: Seq<u8>)
    ensures
        seq![first, second].flatten() == first + second,
{
    let none = Seq::<Seq<u8>>::empty();
    none.lemma_flatten_push(first);
    none.push(first).lemma_flatten_push(second);
    assert(seq![first, second] =~= none.push(first).push(second));
    assert(none.flatten() + first =~= first);
}

/// Behind the same tag, and before a seed of 32 bytes, the bytes in a row
/// say what the middle seed is.
proof fn lemma_handle_and_wallet_in_a_row(
    tag: Seq<u8>,
    handle: Seq<u8>,
    wallet: Seq<u8>,
    other_handle: Seq<u8>,
    other_wallet: Seq<u8>,
)
    requires
        wallet.len() == 32,
        other_wallet.len() == 32,
        tag + handle + wallet == tag + other_handle + other_wallet,
    ensures
        handle == other_handle,
        wallet == other_wallet,
{
    let row = tag + handle + wallet;
    let other_row = tag + other_handle + other_wallet;
    assert(row.len() == other_row.len());
    assert(handle.len() == other_handle.len());
    let start = tag.len() as int;
    let middle = start + handle.len();
    let end = row.len() as int;
    assert(handle =~= row.subrange(start, middle));
    assert(other_handle =~= other_row.subrange(start, middle));
    assert(wallet =~= row.subrange(middle, end));
    assert(other_wallet =~= other_row.subrange(middle, end));
}

/// The canonical address of a list of seeds is the address that the seeds
/// derive with the canonical bump seed: what a search finds, a verification
/// under the bump seed that it found accepts.
pub proof fn law_canonical_address_derives(
    seeds: Seq<Seq<u8>>,
    program_id: Seq<u8>,
    key: Address,
    bump: u8,
)
    requires
        is_canonical(seeds, program_id, key, bump),
    ensures
        derives(seeds, bump, program_id, key),
        seeds_fit(seeds),
        1 <= bump,
{
}

/// A handle of more than 32 bytes has no account and no escrow: no address is
/// derived from it.
pub proof fn law_long_handle_has_no_address(handle: Seq<char>, master_wallet: Address)
    requires
        handle_len(handle) > MAX_HANDLE_LEN,
    ensures
        spec_find_program_address(spec_user_seeds(handle, master_wallet), ID@) is None,
        spec_find_program_address(spec_escrow_seeds(handle, master_wallet), ID@) is None,
{
    assert(spec_user_seeds(handle, master_wallet)[1].len() > MAX_SEED_LEN);
    assert(spec_escrow_seeds(handle, master_wallet)[1].len() > MAX_SEED_LEN);
}

/// An initialisation that succeeds has found the master wallet at the
/// canonical address of its authority, and the record that it leaves there
/// is accepted as a master wallet by every later instruction.
pub proof fn law_initialize_checks_addresses(ctx: Initialize)
    requires
        ctx.error() is None,
    ensures
        is_canonical(
            spec_master_wallet_seeds(ctx.authority),
            ID@,
            ctx.master_wallet.key,
            ctx.bump()->0,
        ),
        master_wallet_error(ctx.effect().master_wallet) is None,
{
}

/// A registration that succeeds has found the master wallet at the address
/// that its record derives, the new account and the escrow at the canonical
/// addresses of the handle, and both holding accounts at the addresses
/// derived for their wallets. The account that it leaves is accepted as the
/// account of the handle by every later instruction.
pub proof fn law_register_user_checks_addresses(ctx: RegisterUser, handle: String)
    requires
        ctx.error(handle@) is None,
    ensures
        derives(
            spec_master_wallet_seeds(ctx.master_wallet.data->0.authority),
            ctx.master_wallet.data->0.bump,
            ID@,
            ctx.master_wallet.key,
        ),
        is_canonical(
            spec_user_seeds(handle@, ctx.master_wallet.key),
            ID@,
            ctx.user_account.key,
            ctx.user_bump(handle@)->0,
        ),
        is_canonical(
            spec_escrow_seeds(handle@, ctx.master_wallet.key),
            ID@,
            ctx.escrow_account.key,
            ctx.escrow_bump(handle@)->0,
        ),
        is_associated_token_address(ctx.user_token_account.key, ctx.master_wallet.key, ctx.mint),
        is_associated_token_address(ctx.escrow_token_account, ctx.escrow_account.key, ctx.mint),
        own_user_account_error(ctx.effect(handle).user_account, ctx.master_wallet.key) is None,
        master_wallet_error(ctx.effect(handle).master_wallet) is None,
{
}

/// A deposit that succeeds has found the master wallet and the user account
/// at the addresses that their records derive, and both holding accounts at
/// the addresses derived for their wallets.
pub proof fn law_deposit_checks_addresses(ctx: Deposit, amount: u64)
    requires
        ctx.error(amount) is None,
    ensures
        derives(
            spec_master_wallet_seeds(ctx.master_wallet.data->0.authority),
            ctx.master_wallet.data->0.bump,
            ID@,
            ctx.master_wallet.key,
        ),
        derives(
            spec_user_seeds(ctx.user_account.data->0.twitter_handle@, ctx.master_wallet.key),
            ctx.user_account.data->0.bump,
            ID@,
            ctx.user_account.key,
        ),
        is_associated_token_address(ctx.depositor_token_account, ctx.depositor, ctx.mint),
        is_associated_token_address(ctx.user_token_account, ctx.master_wallet.key, ctx.mint),
{
}

/// A tip that succeeds has found the master wallet and both user accounts at
/// the addresses that their records derive, the recipient's under the handle
/// that the tip names, and both holding accounts at the address derived for
/// the master wallet.
pub proof fn law_tip_checks_addresses(ctx: Tip, amount: u64, handle: String)
    requires
        ctx.error(amount, handle@) is None,
    ensures
        derives(
            spec_master_wallet_seeds(ctx.master_wallet.data->0.authority),
            ctx.master_wallet.data->0.bump,
            ID@,
            ctx.master_wallet.key,
        ),
        derives(
            spec_user_seeds(
                ctx.sender_user_account.data->0.twitter_handle@,
                ctx.master_wallet.key,
            ),
            ctx.sender_user_account.data->0.bump,
            ID@,
            ctx.sender_user_account.key,
        ),
        derives(
            spec_user_seeds(handle@, ctx.master_wallet.key),
            ctx.recipient_user_account.data->0.bump,
            ID@,
            ctx.recipient_user_account.key,
        ),
        ctx.recipient_user_account.data->0.twitter_handle@ == handle@,
        is_associated_token_address(ctx.sender_token_account, ctx.master_wallet.key, ctx.mint),
        is_associated_token_address(ctx.recipient_token_account, ctx.master_wallet.key, ctx.mint),
{
}

/// A tip to an escrow that succeeds has found the master wallet and the
/// sender's account at the addresses that their records derive, the escrow
/// at the canonical address of the handle, and both holding accounts at the
/// addresses derived for their wallets.
pub proof fn law_tip_to_escrow_checks_addresses(ctx: TipToEscrow, amount: u64, handle: String)
    requires
        ctx.error(amount, handle@) is None,
    ensures
        derives(
            spec_master_wallet_seeds(ctx.master_wallet.data->0.authority),
            ctx.master_wallet.data->0.bump,
            ID@,
            ctx.master_wallet.key,
        ),
        derives(
            spec_user_seeds(
                ctx.sender_user_account.data->0.twitter_handle@,
                ctx.master_wallet.key,
            ),
            ctx.sender_user_account.data->0.bump,
            ID@,
            ctx.sender_user_account.key,
        ),
        is_canonical(
            spec_escrow_seeds(handle@, ctx.master_wallet.key),
            ID@,
            ctx.escrow_account.key,
            ctx.escrow_bump(handle@)->0,
        ),
        is_associated_token_address(ctx.sender_token_account, ctx.master_wallet.key, ctx.mint),
        is_associated_token_address(ctx.escrow_token_account.key, ctx.escrow_account.key, ctx.mint),
{
}

/// A withdrawal that succeeds has found the master wallet and the user
/// account at the addresses that their records derive, the signer to be the
/// owner of the account, and the user's holding account at the address
/// derived for the master wallet.
pub proof fn law_withdraw_checks_addresses(ctx: Withdraw, amount: u64)
    requires
        ctx.error(amount) is None,
    ensures
        derives(
            spec_master_wallet_seeds(ctx.master_wallet.data->0.authority),
            ctx.master_wallet.data->0.bump,
            ID@,
            ctx.master_wallet.key,
        ),
        derives(
            spec_user_seeds(ctx.user_account.data->0.twitter_handle@, ctx.master_wallet.key),
            ctx.user_account.data->0.bump,
            ID@,
            ctx.user_account.key,
        ),
        ctx.user_account.data->0.owner == ctx.owner,
        is_associated_token_address(ctx.user_token_account, ctx.master_wallet.key, ctx.mint),
{
}

/// Every record that an instruction leaves fits the space that is kept
/// for a record of its kind.
pub proof fn law_records_fit_their_space(
    initialize: Initialize,
    register_user: RegisterUser,
    tip_to_escrow: TipToEscrow,
    amount: u64,
    handle: String,
)
    ensures
        initialize.error() is None ==> initialize.effect().master_wallet.data->0.stored_len()
            <= MasterWallet::SIZE,
        register_user.error(handle@) is None ==> {
            let after = register_user.effect(handle);
            &&& after.user_account.data->0.stored_len() <= UserAccount::SIZE
            &&& after.escrow_account.data->0.stored_len() <= EscrowAccount::SIZE
        },
        tip_to_escrow.error(amount, handle@) is None ==> tip_to_escrow.effect(
            amount,
            handle,
        ).escrow_account.data->0.stored_len() <= EscrowAccount::SIZE,
{
    if tip_to_escrow.error(amount, handle@) is None {
        assert(spec_escrow_seeds(handle@, tip_to_escrow.master_wallet.key)[1].len()
            <= MAX_SEED_LEN);
    }
}

/// No balance goes below zero: an instruction that takes more from an
/// account than it holds fails, with `InsufficientBalance` where the accounts
/// are accepted and, for a tip, the recipient is the one that is named. One
/// that succeeds leaves exactly the difference.
pub proof fn law_no_overdraft(
    tip: Tip,
    tip_to_escrow: TipToEscrow,
    withdraw: Withdraw,
    amount: u64,
    handle: String,
)
    ensures
        user_balance(tip.sender_user_account) < amount ==> {
            &&& tip.error(amount, handle@) is Some
            &&& tip.accounts_error(handle@) is None
                && tip.recipient_user_account.data->0.twitter_handle@ == handle@ ==> tip.error(
                amount,
                handle@,
            ) == Some(TipBotError::InsufficientBalance)
        },
        user_balance(tip_to_escrow.sender_user_account) < amount ==> {
            &&& tip_to_escrow.error(amount, handle@) is Some
            &&& tip_to_escrow.accounts_error(handle@) is None ==> tip_to_escrow.error(
                amount,
                handle@,
            ) == Some(TipBotError::InsufficientBalance)
        },
        user_balance(withdraw.user_account) < amount ==> {
            &&& withdraw.error(amount) is Some
            &&& withdraw.accounts_error() is None ==> withdraw.error(amount) == Some(
                TipBotError::InsufficientBalance,
            )
        },
        tip.error(amount, handle@) is None && !tip.to_self() ==> user_balance(
            tip.effect(amount).sender_user_account,
        ) == user_balance(tip.sender_user_account) - amount,
        tip_to_escrow.error(amount, handle@) is None ==> user_balance(
            tip_to_escrow.effect(amount, handle).sender_user_account,
        ) == user_balance(tip_to_escrow.sender_user_account) - amount,
        withdraw.error(amount) is None ==> user_balance(withdraw.effect(amount).user_account)
            == user_balance(withdraw.user_account) - amount,
{
}

/// No balance leaves the range of 64 bits: an instruction that would credit
/// an account beyond it fails, with `MathOverflow` where nothing that is
/// checked earlier is wrong, and one that succeeds leaves exactly the sum.
pub proof fn law_no_overflow(
    deposit: Deposit,
    tip: Tip,
    tip_to_escrow: TipToEscrow,
    amount: u64,
    handle: String,
)
    ensures
        user_balance(deposit.user_account) + amount > u64::MAX ==> {
            &&& deposit.error(amount) is Some
            &&& deposit.accounts_error() is None ==> deposit.error(amount) == Some(
                TipBotError::MathOverflow,
            )
        },
        deposit.error(amount) is None ==> user_balance(deposit.effect(amount).user_account)
            == user_balance(deposit.user_account) + amount,
        !tip.to_self() && user_balance(tip.recipient_user_account) + amount > u64::MAX ==> {
            &&& tip.error(amount, handle@) is Some
            &&& tip.accounts_error(handle@) is None
                && tip.recipient_user_account.data->0.twitter_handle@ == handle@ && 0 < amount
                <= user_balance(tip.sender_user_account) ==> tip.error(amount, handle@) == Some(
                TipBotError::MathOverflow,
            )
        },
        tip.error(amount, handle@) is None && !tip.to_self() ==> user_balance(
            tip.effect(amount).recipient_user_account,
        ) == user_balance(tip.recipient_user_account) + amount,
        escrow_amount(tip_to_escrow.escrow_account) + amount > u64::MAX ==> {
            &&& tip_to_escrow.error(amount, handle@) is Some
            &&& tip_to_escrow.accounts_error(handle@) is None && 0 < amount <= user_balance(
                tip_to_escrow.sender_user_account,
            ) && !escrow_kept_for_other(tip_to_escrow.escrow_account, handle@)
                && is_associated_token_address(
                tip_to_escrow.escrow_token_account.key,
                tip_to_escrow.escrow_account.key,
                tip_to_escrow.mint,
            ) ==> tip_to_escrow.error(amount, handle@) == Some(TipBotError::MathOverflow)
        },
        tip_to_escrow.error(amount, handle@) is None ==> escrow_amount(
            tip_to_escrow.effect(amount, handle).escrow_account,
        ) == escrow_amount(tip_to_escrow.escrow_account) + amount,
{
}

/// The funds follow the books. The transfer that an instruction asks for
/// brings into the holding account behind the balances what the balances
/// gain, and into the holding account of the escrow what the escrow gains:
/// a deposit brings the amount in and a withdrawal takes it out, a tip moves
/// nothing in or out, a tip to an escrow moves the amount from the one to the
/// other, and a registration moves what it claims back.
pub proof fn law_funds_follow_the_books(
    deposit: Deposit,
    withdraw: Withdraw,
    tip: Tip,
    tip_to_escrow: TipToEscrow,
    register_user: RegisterUser,
    amount: u64,
    handle: String,
)
    ensures
        deposit.error(amount) is None && deposit.depositor_token_account
            != deposit.user_token_account ==> deposit.transfer(amount).brings_into(
            deposit.user_token_account,
        ) == user_balance(deposit.effect(amount).user_account) - user_balance(
            deposit.user_account,
        ),
        withdraw.error(amount) is None && withdraw.recipient_token_account
            != withdraw.user_token_account ==> withdraw.transfer(amount).brings_into(
            withdraw.user_token_account,
        ) == user_balance(withdraw.effect(amount).user_account) - user_balance(
            withdraw.user_account,
        ),
        tip.error(amount, handle@) is None ==> {
            &&& tip.sender_token_account == tip.recipient_token_account
            &&& tip.transfer(amount).brings_into(tip.sender_token_account) == 0
            &&& !tip.to_self() ==> user_balance(tip.effect(amount).sender_user_account)
                + user_balance(tip.effect(amount).recipient_user_account) == user_balance(
                tip.sender_user_account,
            ) + user_balance(tip.recipient_user_account)
        },
        tip_to_escrow.error(amount, handle@) is None && tip_to_escrow.escrow_token_account.key
            != tip_to_escrow.sender_token_account ==> {
            let after = tip_to_escrow.effect(amount, handle);
            let transfer = tip_to_escrow.transfer(amount);
            &&& transfer.brings_into(tip_to_escrow.sender_token_account) == user_balance(
                after.sender_user_account,
            ) - user_balance(tip_to_escrow.sender_user_account)
            &&& transfer.brings_into(tip_to_escrow.escrow_token_account.key) == escrow_amount(
                after.escrow_account,
            ) - escrow_amount(tip_to_escrow.escrow_account)
        },
        register_user.error(handle@) is None && register_user.escrow_token_account
            != register_user.user_token_account.key ==> {
            let after = register_user.effect(handle);
            let gained = user_balance(after.user_account);
            let lost = escrow_amount(register_user.escrow_account) - escrow_amount(
                after.escrow_account,
            );
            &&& gained == lost
            &&& match register_user.claim(handle@) {
                Some(claim) => {
                    &&& claim.brings_into(register_user.user_token_account.key) == gained
                    &&& claim.brings_into(register_user.escrow_token_account) == -lost
                },
                None => gained == 0,
            }
        },
{
    if tip.error(amount, handle@) is None {
        Address::lemma_seed_injective(tip.sender_token_account, tip.recipient_token_account);
    }
}

/// An instruction that fails leaves the books as they were.
pub proof fn law_failure_changes_nothing(books: Books, instruction: Instruction)
    requires
        !books.accepts(instruction),
    ensures
        books.apply(instruction) == books,
        books.inflow(instruction) == 0,
{
}

/// One escrow per handle: two tips to the escrow of the same handle under
/// the same master wallet go to the same address.
pub proof fn law_one_escrow_per_handle(
    first: TipToEscrow,
    first_amount: u64,
    first_handle: String,
    second: TipToEscrow,
    second_amount: u64,
    second_handle: String,
)
    requires
        first.error(first_amount, first_handle@) is None,
        second.error(second_amount, second_handle@) is None,
        first_handle@ == second_handle@,
        first.master_wallet.key == second.master_wallet.key,
    ensures
        first.escrow_account.key == second.escrow_account.key,
{
    Address::lemma_seed_injective(first.escrow_account.key, second.escrow_account.key);
}

/// Two tips to the escrow of a handle that nothing waits for yet add up:
/// after both, one escrow is kept for the handle, at one address, and holds
/// the sum of the two amounts. This holds of any two tips, so of the same two
/// in the other order.
pub proof fn law_escrow_tips_add_up(
    books: Books,
    first: TipToEscrow,
    first_amount: u64,
    second: TipToEscrow,
    second_amount: u64,
    first_handle: String,
    second_handle: String,
)
    requires
        first_handle@ == second_handle@,
        first.master_wallet.key == second.master_wallet.key,
        !(books.escrow_at(first.escrow_account.key).data matches Some(escrow) && (
        escrow.is_bound() || escrow.amount > 0)),
        books.accepts(Instruction::TipToEscrow(first, first_amount, first_handle)),
        books.apply(Instruction::TipToEscrow(first, first_amount, first_handle)).accepts(
            Instruction::TipToEscrow(second, second_amount, second_handle),
        ),
    ensures
        first.escrow_account.key == second.escrow_account.key,
        ({
            let after = books.apply(
                Instruction::TipToEscrow(first, first_amount, first_handle),
            ).apply(Instruction::TipToEscrow(second, second_amount, second_handle));
            &&& after.escrow_at(first.escrow_account.key).data matches Some(escrow)
            &&& escrow.recipient_twitter_handle@ == first_handle@
            &&& escrow.amount == first_amount + second_amount
        }),
{
    Address::lemma_seed_injective(first.escrow_account.key, second.escrow_account.key);
}

/// A tip to an escrow that is kept for another handle fails, with
/// `EscrowHandleMismatch` where the accounts are accepted, the amount is
/// positive and the sender can pay it.
pub proof fn law_escrow_of_other_handle_refuses(ctx: TipToEscrow, amount: u64, handle: String)
    requires
        escrow_kept_for_other(ctx.escrow_account, handle@),
    ensures
        ctx.error(amount, handle@) is Some,
        ctx.accounts_error(handle@) is None && 0 < amount <= user_balance(
            ctx.sender_user_account,
        ) ==> ctx.error(amount, handle@) == Some(TipBotError::EscrowHandleMismatch),
{
}

/// A tip to an escrow that the books keep for another handle changes
/// nothing in the books.
pub proof fn law_escrow_of_other_handle_is_left_alone(
    books: Books,
    ctx: TipToEscrow,
    amount: u64,
    handle: String,
)
    requires
        escrow_kept_for_other(books.escrow_at(ctx.escrow_account.key), handle@),
    ensures
        !books.accepts(Instruction::TipToEscrow(ctx, amount, handle)),
        books.apply(Instruction::TipToEscrow(ctx, amount, handle)) == books,
{
}

/// The registration of a handle claims what was tipped to its escrow: after
/// a tip of an amount to the escrow of a handle that nothing waits for yet,
/// and the registration of that handle, the new account holds the amount as
/// its balance and as its claimed escrow, and the escrow holds nothing.
pub proof fn law_registration_claims_escrow(
    books: Books,
    tip: TipToEscrow,
    amount: u64,
    tip_handle: String,
    registration: RegisterUser,
    handle: String,
)
    requires
        tip_handle@ == handle@,
        tip.master_wallet.key == registration.master_wallet.key,
        escrow_amount(books.escrow_at(tip.escrow_account.key)) == 0,
        books.accepts(Instruction::TipToEscrow(tip, amount, tip_handle)),
        books.apply(Instruction::TipToEscrow(tip, amount, tip_handle)).accepts(
            Instruction::RegisterUser(registration, handle),
        ),
    ensures
        tip.escrow_account.key == registration.escrow_account.key,
        ({
            let after = books.apply(Instruction::TipToEscrow(tip, amount, tip_handle)).apply(
                Instruction::RegisterUser(registration, handle),
            );
            &&& after.user_at(registration.user_account.key).data matches Some(user)
            &&& user.balance == amount
            &&& user.escrow_balance == amount
            &&& user.twitter_handle@ == handle@
            &&& after.escrow_at(tip.escrow_account.key).data matches Some(escrow)
            &&& escrow.amount == 0
        }),
{
    Address::lemma_seed_injective(tip.escrow_account.key, registration.escrow_account.key);
}

/// One account per handle: two registrations of the same handle under the
/// same master wallet name the same account and the same escrow, so that the
/// second of them finds the account of the first and fails.
pub proof fn law_handle_registers_once(
    books: Books,
    first: RegisterUser,
    first_handle: String,
    second: RegisterUser,
    second_handle: String,
)
    requires
        first_handle@ == second_handle@,
        first.master_wallet.key == second.master_wallet.key,
        books.accepts(Instruction::RegisterUser(first, first_handle)),
    ensures
        !books.apply(Instruction::RegisterUser(first, first_handle)).accepts(
            Instruction::RegisterUser(second, second_handle),
        ),
        books.accepts(Instruction::RegisterUser(second, second_handle)) ==> {
            &&& first.user_account.key == second.user_account.key
            &&& first.escrow_account.key == second.escrow_account.key
        },
{
    Address::lemma_seed_injective(first.user_account.key, second.user_account.key);
    Address::lemma_seed_injective(first.escrow_account.key, second.escrow_account.key);
}

/// One master wallet per authority: two initialisations for the same
/// authority name the same address, so that the second of them finds the
/// master wallet of the first and fails.
pub proof fn law_authority_initializes_once(books: Books, first: Initialize, second: Initialize)
    requires
        first.authority == second.authority,
        books.accepts(Instruction::Initialize(first)),
    ensures
        !books.apply(Instruction::Initialize(first)).accepts(Instruction::Initialize(second)),
        books.accepts(Instruction::Initialize(second)) ==> first.master_wallet.key
            == second.master_wallet.key,
{
    Address::lemma_seed_injective(first.master_wallet.key, second.master_wallet.key);
}

/// No record is ever destroyed, and what identifies it never changes: after
/// any instruction every master wallet is still there with its authority and
/// bump seed, and has counted no less than before; every user account is
/// still there with its handle, owner and bump seed; every escrow is still
/// there, and one that was bound to a handle is bound to the same handle.
pub proof fn law_records_persist(books: Books, instruction: Instruction, key: Address)
    ensures
        books.master_wallets.dom().contains(key) ==> {
            let before = books.master_wallets[key];
            let after = books.apply(instruction).master_wallets[key];
            &&& books.apply(instruction).master_wallets.dom().contains(key)
            &&& after.authority == before.authority
            &&& after.bump == before.bump
            &&& after.total_users >= before.total_users
            &&& after.total_escrows >= before.total_escrows
        },
        books.users.dom().contains(key) ==> {
            let before = books.users[key];
            let after = books.apply(instruction).users[key];
            &&& books.apply(instruction).users.dom().contains(key)
            &&& after.twitter_handle == before.twitter_handle
            &&& after.owner == before.owner
            &&& after.bump == before.bump
            &&& after.escrow_balance == before.escrow_balance
        },
        books.escrows.dom().contains(key) ==> {
            let before = books.escrows[key];
            let after = books.apply(instruction).escrows[key];
            &&& books.apply(instruction).escrows.dom().contains(key)
            &&& before.is_bound() ==> after.recipient_twitter_handle
                == before.recipient_twitter_handle
        },
{
}

/// Every record of the books is at an address that is derived for it: a
/// master wallet at the address of its authority, a user account at the
/// address of its handle under some master wallet, and an escrow at the
/// address of the handle that it stores under some master wallet, each with
/// the bump seed that the record stores.
pub open spec fn addresses_are_derived(books: Books) -> bool {
    &&& forall|key: Address| #[trigger]
        books.master_wallets.dom().contains(key) ==> derives(
            spec_master_wallet_seeds(books.master_wallets[key].authority),
            books.master_wallets[key].bump,
            ID@,
            key,
        )
    &&& forall|key: Address| #[trigger]
        books.users.dom().contains(key) ==> exists|master_wallet: Address|
            is_user_address(books, key, master_wallet)
    &&& forall|key: Address| #[trigger]
        books.escrows.dom().contains(key) ==> exists|master_wallet: Address|
            is_escrow_address(books, key, master_wallet)
}

/// The user account at `key` is at the address of its handle under the
/// master wallet.
pub open spec fn is_user_address(books: Books, key: Address, master_wallet: Address) -> bool {
    derives(
        spec_user_seeds(books.users[key].twitter_handle@, master_wallet),
        books.users[key].bump,
        ID@,
        key,
    )
}

/// The escrow at `key` is at the address of the handle that it stores under
/// the master wallet.
pub open spec fn is_escrow_address(books: Books, key: Address, master_wallet: Address) -> bool {
    derives(
        spec_escrow_seeds(books.escrows[key].recipient_twitter_handle@, master_wallet),
        books.escrows[key].bump,
        ID@,
        key,
    )
}

/// The addresses of the records stay derived: where every record of the
/// books is at an address that is derived for it, it is so after any
/// instruction.
pub proof fn law_addresses_stay_derived(books: Books, instruction: Instruction)
    requires
        addresses_are_derived(books),
    ensures
        addresses_are_derived(books.apply(instruction)),
{
    let after = books.apply(instruction);
    assert forall|key: Address| #[trigger] after.users.dom().contains(key) implies exists|
        master_wallet: Address,
    | is_user_address(after, key, master_wallet) by {
        if books.users.dom().contains(key) {
            law_records_persist(books, instruction, key);
            let master_wallet = choose|master_wallet: Address|
                is_user_address(books, key, master_wallet);
            assert(is_user_address(after, key, master_wallet));
        } else {
            match books.load(instruction) {
                Instruction::RegisterUser(ctx, handle) => {
                    assert(is_user_address(after, key, ctx.master_wallet.key));
                },
                _ => {},
            }
        }
    }
    assert forall|key: Address| #[trigger] after.escrows.dom().contains(key) implies exists|
        master_wallet: Address,
    | is_escrow_address(after, key, master_wallet) by {
        if books.escrows.dom().contains(key) && after.escrows[key] == books.escrows[key] {
            let master_wallet = choose|master_wallet: Address|
                is_escrow_address(books, key, master_wallet);
            assert(is_escrow_address(after, key, master_wallet));
        } else {
            match books.load(instruction) {
                Instruction::RegisterUser(ctx, handle) => {
                    assert(is_escrow_address(after, key, ctx.master_wallet.key));
                },
                Instruction::TipToEscrow(ctx, amount, handle) => {
                    assert(is_escrow_address(after, key, ctx.master_wallet.key));
                },
                _ => {},
            }
        }
    }
}

} // verus!
