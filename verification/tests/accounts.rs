use tipbot::accounts::{
    bind_escrow, canonical_bump, check_master_wallet, check_own_user_account, check_user_account,
    is_holding_account, master_signer_seeds,
};
use tipbot::pda::{
    associated_token_address, escrow_address, escrow_seeds, master_wallet_address, user_address,
    user_seeds,
};
use tipbot::{Account, Address, EscrowAccount, MasterWallet, TipBotError, UserAccount};

fn key(n: u8) -> Address {
    Address::new([n; 32])
}

fn master_wallet(authority: Address) -> Account<MasterWallet> {
    let (address, bump) = master_wallet_address(&authority).unwrap();
    Account {
        key: address,
        data: Some(MasterWallet { authority, total_users: 3, total_escrows: 4, bump }),
    }
}

fn user(handle: &str, master_wallet: &Address) -> Account<UserAccount> {
    let (address, bump) = user_address(handle, master_wallet).unwrap();
    Account {
        key: address,
        data: Some(UserAccount {
            twitter_handle: handle.to_string(),
            owner: key(11),
            balance: 9,
            escrow_balance: 0,
            bump,
        }),
    }
}

fn escrow(handle: &str, kept_for: &str, master_wallet: &Address) -> Account<EscrowAccount> {
    let (address, bump) = escrow_address(handle, master_wallet).unwrap();
    Account {
        key: address,
        data: Some(EscrowAccount {
            recipient_twitter_handle: kept_for.to_string(),
            amount: 5,
            bump,
        }),
    }
}

#[test]
fn master_wallet_is_checked_against_its_record() {
    let wallet = master_wallet(key(1));
    assert_eq!(check_master_wallet(&wallet), None);

    let nothing = Account { key: wallet.key, data: None };
    assert_eq!(check_master_wallet(&nothing), Some(TipBotError::AccountNotInitialized));

    let mut elsewhere = wallet.clone();
    elsewhere.key = key(9);
    assert_eq!(check_master_wallet(&elsewhere), Some(TipBotError::AddressMismatch));

    let mut of_another = wallet.clone();
    of_another.data.as_mut().unwrap().authority = key(2);
    assert_eq!(check_master_wallet(&of_another), Some(TipBotError::AddressMismatch));

    let mut counted = wallet.clone();
    counted.data.as_mut().unwrap().total_users = u64::MAX;
    assert_eq!(check_master_wallet(&counted), None);
}

#[test]
fn user_account_is_checked_against_a_handle() {
    let wallet = master_wallet(key(1));
    let alice = user("alice", &wallet.key);
    assert_eq!(check_user_account(&alice, "alice", &wallet.key), None);
    assert_eq!(check_own_user_account(&alice, &wallet.key), None);
    assert_eq!(
        check_user_account(&alice, "bob", &wallet.key),
        Some(TipBotError::AddressMismatch)
    );
    assert_eq!(
        check_user_account(&alice, "alice", &key(9)),
        Some(TipBotError::AddressMismatch)
    );
    assert_eq!(check_own_user_account(&alice, &key(9)), Some(TipBotError::AddressMismatch));

    let mut renamed = alice.clone();
    renamed.data.as_mut().unwrap().twitter_handle = "bob".to_string();
    assert_eq!(check_user_account(&renamed, "alice", &wallet.key), None);
    assert_eq!(check_own_user_account(&renamed, &wallet.key), Some(TipBotError::AddressMismatch));

    let nothing = Account::<UserAccount> { key: alice.key, data: None };
    assert_eq!(
        check_user_account(&nothing, "alice", &wallet.key),
        Some(TipBotError::AccountNotInitialized)
    );
    assert_eq!(
        check_own_user_account(&nothing, &wallet.key),
        Some(TipBotError::AccountNotInitialized)
    );
}

#[test]
fn canonical_bump_is_given_for_the_canonical_address_only() {
    let wallet = master_wallet(key(1));
    let (address, bump) = user_address("alice", &wallet.key).unwrap();
    let seeds = user_seeds("alice", &wallet.key);
    assert_eq!(canonical_bump(&seeds, &address), Some(bump));
    assert_eq!(canonical_bump(&seeds, &wallet.key), None);
    assert_eq!(canonical_bump(&escrow_seeds("alice", &wallet.key), &address), None);
    assert_eq!(canonical_bump(&user_seeds(&"a".repeat(33), &wallet.key), &address), None);
}

#[test]
fn holding_account_is_that_of_wallet_and_mint() {
    let held = associated_token_address(&key(1), &key(2)).unwrap();
    assert!(is_holding_account(&held, &key(1), &key(2)));
    assert!(!is_holding_account(&held, &key(2), &key(1)));
    assert!(!is_holding_account(&held, &key(1), &key(3)));
    assert!(!is_holding_account(&key(1), &key(1), &key(2)));
}

#[test]
fn master_wallet_signs_with_its_seeds_and_bump() {
    let wallet = master_wallet(key(1));
    let record = wallet.data.as_ref().unwrap();
    assert_eq!(
        master_signer_seeds(record),
        vec![b"master_wallet".to_vec(), vec![1u8; 32], vec![record.bump]]
    );
}

#[test]
fn escrow_is_bound_once() {
    let wallet = master_wallet(key(1));
    let (address, _) = escrow_address("carol", &wallet.key).unwrap();
    let carol = "carol".to_string();

    let missing = Account::<EscrowAccount> { key: address, data: None };
    assert_eq!(bind_escrow(&missing, &carol), Ok("carol".to_string()));

    let unbound = escrow("carol", "", &wallet.key);
    assert_eq!(bind_escrow(&unbound, &carol), Ok("carol".to_string()));

    let bound = escrow("carol", "carol", &wallet.key);
    assert_eq!(bind_escrow(&bound, &carol), Ok("carol".to_string()));

    let other = escrow("carol", "dave", &wallet.key);
    assert_eq!(bind_escrow(&other, &carol), Err(TipBotError::EscrowHandleMismatch));
    assert_eq!(bind_escrow(&other, &"dave".to_string()), Ok("dave".to_string()));
}
