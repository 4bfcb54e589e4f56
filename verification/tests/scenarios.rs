use tipbot::pda::{associated_token_address, escrow_address, master_wallet_address, user_address};
use tipbot::{
    deposit, initialize, register_user, tip, tip_to_escrow, withdraw, Account, Address, Deposit,
    EscrowAccount, HoldingAccount, Initialize, MasterWallet, RegisterUser, Tip, TipBotError,
    TipToEscrow, UserAccount, Withdraw,
};

fn key(n: u8) -> Address {
    Address::new([n; 32])
}

/// The addresses of one deployment.
struct Deployment {
    authority: Address,
    master_wallet: Address,
    mint: Address,
    /// The holding account of the master wallet.
    pool: Address,
}

fn deployment() -> Deployment {
    let authority = key(1);
    let mint = key(2);
    let (master_wallet, _) = master_wallet_address(&authority).unwrap();
    let pool = associated_token_address(&master_wallet, &mint).unwrap();
    Deployment { authority, master_wallet, mint, pool }
}

fn initialized(d: &Deployment) -> Account<MasterWallet> {
    let mut ctx = Initialize {
        master_wallet: Account { key: d.master_wallet, data: None },
        authority: d.authority,
    };
    initialize(&mut ctx).unwrap();
    ctx.master_wallet
}

fn registration(
    d: &Deployment,
    master_wallet: &Account<MasterWallet>,
    escrow: Option<EscrowAccount>,
    handle: &str,
    owner: Address,
) -> RegisterUser {
    let (user_key, _) = user_address(handle, &d.master_wallet).unwrap();
    let (escrow_key, _) = escrow_address(handle, &d.master_wallet).unwrap();
    RegisterUser {
        master_wallet: master_wallet.clone(),
        user_account: Account { key: user_key, data: None },
        owner,
        user_token_account: HoldingAccount { key: d.pool, initialized: true },
        escrow_account: Account { key: escrow_key, data: escrow },
        escrow_token_account: associated_token_address(&escrow_key, &d.mint).unwrap(),
        mint: d.mint,
    }
}

/// Registers `handle` and gives the master wallet and the new account.
fn registered(
    d: &Deployment,
    master_wallet: &Account<MasterWallet>,
    handle: &str,
    owner: Address,
) -> (Account<MasterWallet>, Account<UserAccount>) {
    let mut ctx = registration(d, master_wallet, None, handle, owner);
    register_user(&mut ctx, handle.to_string()).unwrap();
    (ctx.master_wallet, ctx.user_account)
}

fn with_balance(account: &Account<UserAccount>, balance: u64) -> Account<UserAccount> {
    let mut account = account.clone();
    account.data.as_mut().unwrap().balance = balance;
    account
}

fn balance(account: &Account<UserAccount>) -> u64 {
    account.data.as_ref().unwrap().balance
}

fn deposit_accounts(
    d: &Deployment,
    master_wallet: &Account<MasterWallet>,
    user: &Account<UserAccount>,
) -> Deposit {
    let depositor = key(50);
    Deposit {
        master_wallet: master_wallet.clone(),
        user_account: user.clone(),
        depositor,
        depositor_token_account: associated_token_address(&depositor, &d.mint).unwrap(),
        user_token_account: d.pool,
        mint: d.mint,
    }
}

fn tip_accounts(
    d: &Deployment,
    master_wallet: &Account<MasterWallet>,
    sender: &Account<UserAccount>,
    recipient: &Account<UserAccount>,
) -> Tip {
    Tip {
        master_wallet: master_wallet.clone(),
        sender_user_account: sender.clone(),
        recipient_user_account: recipient.clone(),
        sender_token_account: d.pool,
        recipient_token_account: d.pool,
        mint: d.mint,
    }
}

fn escrow_tip_accounts(
    d: &Deployment,
    master_wallet: &Account<MasterWallet>,
    sender: &Account<UserAccount>,
    escrow: Option<EscrowAccount>,
    handle: &str,
) -> TipToEscrow {
    let (escrow_key, _) = escrow_address(handle, &d.master_wallet).unwrap();
    let initialized = escrow.is_some();
    TipToEscrow {
        master_wallet: master_wallet.clone(),
        sender_user_account: sender.clone(),
        escrow_account: Account { key: escrow_key, data: escrow },
        sender: key(60),
        sender_token_account: d.pool,
        escrow_token_account: HoldingAccount {
            key: associated_token_address(&escrow_key, &d.mint).unwrap(),
            initialized,
        },
        mint: d.mint,
    }
}

fn withdraw_accounts(
    d: &Deployment,
    master_wallet: &Account<MasterWallet>,
    user: &Account<UserAccount>,
    owner: Address,
) -> Withdraw {
    Withdraw {
        master_wallet: master_wallet.clone(),
        user_account: user.clone(),
        owner,
        user_token_account: d.pool,
        recipient_token_account: key(70),
        mint: d.mint,
    }
}

#[test]
fn tip_needs_a_registered_recipient() {
    let d = deployment();
    let master_wallet = initialized(&d);
    let (master_wallet, alice) = registered(&d, &master_wallet, "alice", key(11));

    let mut paid = deposit_accounts(&d, &master_wallet, &alice);
    deposit(&mut paid, 100).unwrap();
    let alice = paid.user_account;
    assert_eq!(balance(&alice), 100);

    let (bob_key, _) = user_address("bob", &d.master_wallet).unwrap();
    let unregistered = Account { key: bob_key, data: None };
    let mut early = tip_accounts(&d, &master_wallet, &alice, &unregistered);
    assert!(tip(&mut early, 30, "bob".to_string()).is_err());
    assert_eq!(early.sender_user_account, alice);
    assert_eq!(early.recipient_user_account, unregistered);

    let (master_wallet, bob) = registered(&d, &master_wallet, "bob", key(12));
    assert_eq!(bob.key, bob_key);
    let mut late = tip_accounts(&d, &master_wallet, &alice, &bob);
    assert!(tip(&mut late, 30, "bob".to_string()).is_ok());
    assert_eq!(balance(&late.sender_user_account), 70);
    assert_eq!(balance(&late.recipient_user_account), 30);
    assert_eq!(master_wallet.data.unwrap().total_users, 2);
}

#[test]
fn registration_claims_what_was_tipped() {
    let d = deployment();
    let (master_wallet, alice) = registered(&d, &initialized(&d), "alice", key(11));
    let alice = with_balance(&alice, 80);

    let mut tipped = escrow_tip_accounts(&d, &master_wallet, &alice, None, "carol");
    tip_to_escrow(&mut tipped, 50, "carol".to_string()).unwrap();
    let escrow = tipped.escrow_account.data.clone().unwrap();
    assert_eq!(escrow.amount, 50);
    assert_eq!(escrow.recipient_twitter_handle, "carol");

    let mut ctx = registration(&d, &tipped.master_wallet, Some(escrow), "carol", key(13));
    assert_eq!(ctx.escrow_account.key, tipped.escrow_account.key);
    let (_, claim) = register_user(&mut ctx, "carol".to_string()).unwrap();
    assert_eq!(claim.unwrap().amount, 50);
    let carol = ctx.user_account.data.unwrap();
    assert_eq!(carol.balance, 50);
    assert_eq!(carol.escrow_balance, 50);
    assert_eq!(ctx.escrow_account.data.unwrap().amount, 0);
    let wallet = ctx.master_wallet.data.unwrap();
    assert_eq!(wallet.total_users, 2);
    assert_eq!(wallet.total_escrows, 1);
}

#[test]
fn deposit_overflow_leaves_the_balance() {
    let d = deployment();
    let (master_wallet, alice) = registered(&d, &initialized(&d), "alice", key(11));
    let mut ctx = deposit_accounts(&d, &master_wallet, &with_balance(&alice, u64::MAX - 1));
    assert_eq!(deposit(&mut ctx, 2), Err(TipBotError::MathOverflow));
    assert_eq!(balance(&ctx.user_account), u64::MAX - 1);
}

#[test]
fn escrow_tips_add_up_in_either_order() {
    let d = deployment();
    let (master_wallet, alice) = registered(&d, &initialized(&d), "alice", key(11));
    let (master_wallet, bob) = registered(&d, &master_wallet, "bob", key(12));
    let alice = with_balance(&alice, 100);
    let bob = with_balance(&bob, 100);

    let mut amounts = Vec::new();
    for (first, first_amount, second, second_amount) in
        [(&alice, 20u64, &bob, 30u64), (&bob, 30u64, &alice, 20u64)]
    {
        let mut one = escrow_tip_accounts(&d, &master_wallet, first, None, "carol");
        tip_to_escrow(&mut one, first_amount, "carol".to_string()).unwrap();
        let mut two = escrow_tip_accounts(
            &d,
            &one.master_wallet,
            second,
            one.escrow_account.data.clone(),
            "carol",
        );
        assert_eq!(two.escrow_account.key, one.escrow_account.key);
        tip_to_escrow(&mut two, second_amount, "carol".to_string()).unwrap();
        let escrow = two.escrow_account.data.unwrap();
        assert_eq!(escrow.recipient_twitter_handle, "carol");
        assert_eq!(two.master_wallet.data.unwrap().total_escrows, 2);
        amounts.push(escrow.amount);
    }
    assert_eq!(amounts, vec![50, 50]);
}

#[test]
fn escrow_of_another_handle_is_left_alone() {
    let d = deployment();
    let (master_wallet, alice) = registered(&d, &initialized(&d), "alice", key(11));
    let (_, escrow_bump) = escrow_address("carol", &d.master_wallet).unwrap();
    let other = EscrowAccount {
        recipient_twitter_handle: "dave".to_string(),
        amount: 5,
        bump: escrow_bump,
    };
    let mut ctx =
        escrow_tip_accounts(&d, &master_wallet, &with_balance(&alice, 100), Some(other), "carol");
    let before = ctx.clone();
    assert_eq!(
        tip_to_escrow(&mut ctx, 10, "carol".to_string()),
        Err(TipBotError::EscrowHandleMismatch)
    );
    assert_eq!(ctx, before);
}

/// The balances of the users and the amounts in the escrows, added up.
fn total(users: &[&Account<UserAccount>], escrows: &[&Account<EscrowAccount>]) -> u128 {
    let balances: u128 = users
        .iter()
        .map(|user| user.data.as_ref().map_or(0, |record| record.balance as u128))
        .sum();
    let amounts: u128 = escrows
        .iter()
        .map(|escrow| escrow.data.as_ref().map_or(0, |record| record.amount as u128))
        .sum();
    balances + amounts
}

#[test]
fn value_is_conserved() {
    let d = deployment();
    let alice_owner = key(11);
    let (master_wallet, alice) = registered(&d, &initialized(&d), "alice", alice_owner);
    let (master_wallet, bob) = registered(&d, &master_wallet, "bob", key(12));
    let (carol_escrow_key, _) = escrow_address("carol", &d.master_wallet).unwrap();
    let carol_escrow = Account { key: carol_escrow_key, data: None };
    assert_eq!(total(&[&alice, &bob], &[&carol_escrow]), 0);

    let mut step = deposit_accounts(&d, &master_wallet, &alice);
    deposit(&mut step, 100).unwrap();
    let alice = step.user_account;
    assert_eq!(total(&[&alice, &bob], &[&carol_escrow]), 100);

    let mut step = tip_accounts(&d, &master_wallet, &alice, &bob);
    tip(&mut step, 30, "bob".to_string()).unwrap();
    let (alice, bob) = (step.sender_user_account, step.recipient_user_account);
    assert_eq!(total(&[&alice, &bob], &[&carol_escrow]), 100);

    let mut step = escrow_tip_accounts(&d, &master_wallet, &bob, None, "carol");
    tip_to_escrow(&mut step, 25, "carol".to_string()).unwrap();
    let (master_wallet, bob, carol_escrow) =
        (step.master_wallet, step.sender_user_account, step.escrow_account);
    assert_eq!(balance(&bob), 5);
    assert_eq!(total(&[&alice, &bob], &[&carol_escrow]), 100);

    let mut step = tip_accounts(&d, &master_wallet, &alice, &bob);
    assert!(tip(&mut step, 71, "bob".to_string()).is_err());
    assert_eq!(
        total(&[&step.sender_user_account, &step.recipient_user_account], &[&carol_escrow]),
        100
    );

    let mut step = registration(&d, &master_wallet, carol_escrow.data.clone(), "carol", key(13));
    register_user(&mut step, "carol".to_string()).unwrap();
    let (master_wallet, carol, carol_escrow) =
        (step.master_wallet, step.user_account, step.escrow_account);
    assert_eq!(balance(&carol), 25);
    assert_eq!(total(&[&alice, &bob, &carol], &[&carol_escrow]), 100);

    let mut step = withdraw_accounts(&d, &master_wallet, &alice, alice_owner);
    withdraw(&mut step, 60).unwrap();
    let alice = step.user_account;
    assert_eq!(balance(&alice), 10);
    assert_eq!(total(&[&alice, &bob, &carol], &[&carol_escrow]), 40);

    let mut step = tip_accounts(&d, &master_wallet, &carol, &carol);
    tip(&mut step, 25, "carol".to_string()).unwrap();
    assert_eq!(step.sender_user_account, carol);
    assert_eq!(step.recipient_user_account, carol);
    assert_eq!(total(&[&alice, &bob, &carol], &[&carol_escrow]), 40);
}

#[test]
fn created_accounts_are_accepted_later() {
    let d = deployment();
    let owner = key(11);
    let (master_wallet, alice) = registered(&d, &initialized(&d), "alice", owner);
    let mut ctx = deposit_accounts(&d, &master_wallet, &alice);
    assert!(deposit(&mut ctx, 7).is_ok());
    let mut ctx = withdraw_accounts(&d, &master_wallet, &ctx.user_account, owner);
    assert!(withdraw(&mut ctx, 7).is_ok());
    let mut ctx = escrow_tip_accounts(&d, &master_wallet, &with_balance(&alice, 3), None, "zoe");
    assert!(tip_to_escrow(&mut ctx, 3, "zoe".to_string()).is_ok());
    let mut again = escrow_tip_accounts(
        &d,
        &ctx.master_wallet,
        &with_balance(&alice, 3),
        ctx.escrow_account.data.clone(),
        "zoe",
    );
    assert!(tip_to_escrow(&mut again, 3, "zoe".to_string()).is_ok());
    assert_eq!(again.escrow_account.data.unwrap().amount, 6);
}

#[test]
fn registration_claims_the_whole_escrow() {
    let d = deployment();
    let (master_wallet, alice) = registered(&d, &initialized(&d), "alice", key(11));
    for amount in [1u64, 999, u64::MAX] {
        let mut tipped = escrow_tip_accounts(
            &d,
            &master_wallet,
            &with_balance(&alice, u64::MAX),
            None,
            "erin",
        );
        tip_to_escrow(&mut tipped, amount, "erin".to_string()).unwrap();
        assert_eq!(balance(&tipped.sender_user_account), u64::MAX - amount);
        let mut ctx = registration(
            &d,
            &tipped.master_wallet,
            tipped.escrow_account.data.clone(),
            "erin",
            key(14),
        );
        let (_, claim) = register_user(&mut ctx, "erin".to_string()).unwrap();
        assert_eq!(claim.unwrap().amount, amount);
        let erin = ctx.user_account.data.unwrap();
        assert_eq!(erin.balance, amount);
        assert_eq!(erin.escrow_balance, amount);
        assert_eq!(ctx.escrow_account.data.unwrap().amount, 0);
    }
}
