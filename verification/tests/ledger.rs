use nft_lock_and_swap::error::Error;
use nft_lock_and_swap::identity::Identity;
use nft_lock_and_swap::ledger::Ledger;

fn id(tag: u8) -> Identity {
    Identity::new([tag; 32])
}

#[test]
fn default_identity_is_all_zero() {
    assert_eq!(Identity::default().to_bytes(), [0u8; 32]);
    assert!(Identity::default().is_nobody());
    assert!(Identity::new([0u8; 32]).is_nobody());
    assert!(Identity::default() == Identity::new([0u8; 32]));
}

#[test]
fn identities_compare_by_all_bytes() {
    let mut bytes = [7u8; 32];
    let a = Identity::new(bytes);
    bytes[31] = 8;
    let b = Identity::new(bytes);
    assert!(a != b);
    assert!(a == id(7));
    assert!(!a.is_nobody());
    let mut low = [0u8; 32];
    low[31] = 1;
    assert!(!Identity::new(low).is_nobody());
    assert_eq!(b.to_bytes()[31], 8);
}

#[test]
fn new_ledger_is_empty() {
    let ledger = Ledger::new();
    assert_eq!(ledger.balance_of(id(1)), None);
    assert!(ledger.holder_of(id(1)).is_none());
}

#[test]
fn open_account_sets_balance() {
    let mut ledger = Ledger::new();
    assert_eq!(ledger.open_account(id(1), 42), Ok(()));
    assert_eq!(ledger.balance_of(id(1)), Some(42));
    assert_eq!(ledger.balance_of(id(2)), None);
}

#[test]
fn open_account_twice_is_refused() {
    let mut ledger = Ledger::new();
    assert_eq!(ledger.open_account(id(1), 42), Ok(()));
    assert_eq!(ledger.open_account(id(1), 7), Err(Error::InvalidAccount));
    assert_eq!(ledger.balance_of(id(1)), Some(42));
}

#[test]
fn open_account_for_default_identity_is_refused() {
    let mut ledger = Ledger::new();
    assert_eq!(ledger.open_account(Identity::default(), 1), Err(Error::InvalidAccount));
    assert_eq!(ledger.balance_of(Identity::default()), None);
}

#[test]
fn register_asset_records_holder() {
    let mut ledger = Ledger::new();
    assert_eq!(ledger.register_asset(id(9), id(1)), Ok(()));
    assert!(ledger.holder_of(id(9)) == Some(id(1)));
    assert_eq!(ledger.register_asset(id(9), id(2)), Err(Error::InvalidAsset));
    assert!(ledger.holder_of(id(9)) == Some(id(1)));
}

#[test]
fn transfer_moves_exact_amount() {
    let mut ledger = Ledger::new();
    ledger.open_account(id(1), 50).unwrap();
    ledger.open_account(id(2), 5).unwrap();
    ledger.open_account(id(3), 9).unwrap();
    assert_eq!(ledger.transfer(id(1), id(2), 30), Ok(()));
    assert_eq!(ledger.balance_of(id(1)), Some(20));
    assert_eq!(ledger.balance_of(id(2)), Some(35));
    assert_eq!(ledger.balance_of(id(3)), Some(9));
}

#[test]
fn transfer_of_whole_balance_and_of_nothing() {
    let mut ledger = Ledger::new();
    ledger.open_account(id(1), 50).unwrap();
    ledger.open_account(id(2), 0).unwrap();
    assert_eq!(ledger.transfer(id(1), id(2), 0), Ok(()));
    assert_eq!(ledger.balance_of(id(1)), Some(50));
    assert_eq!(ledger.transfer(id(1), id(2), 50), Ok(()));
    assert_eq!(ledger.balance_of(id(1)), Some(0));
    assert_eq!(ledger.balance_of(id(2)), Some(50));
}

#[test]
fn transfer_to_self_changes_nothing() {
    let mut ledger = Ledger::new();
    ledger.open_account(id(1), 50).unwrap();
    assert_eq!(ledger.transfer(id(1), id(1), 50), Ok(()));
    assert_eq!(ledger.balance_of(id(1)), Some(50));
    assert_eq!(ledger.transfer(id(1), id(1), 51), Err(Error::InsufficientFunds));
    assert_eq!(ledger.balance_of(id(1)), Some(50));
}

#[test]
fn transfer_over_balance_is_refused() {
    let mut ledger = Ledger::new();
    ledger.open_account(id(1), 29).unwrap();
    ledger.open_account(id(2), 0).unwrap();
    assert_eq!(ledger.transfer(id(1), id(2), 30), Err(Error::InsufficientFunds));
    assert_eq!(ledger.balance_of(id(1)), Some(29));
    assert_eq!(ledger.balance_of(id(2)), Some(0));
}

#[test]
fn transfer_with_missing_account_is_refused() {
    let mut ledger = Ledger::new();
    ledger.open_account(id(1), 29).unwrap();
    assert_eq!(ledger.transfer(id(1), id(2), 1), Err(Error::InvalidAccount));
    assert_eq!(ledger.transfer(id(2), id(1), 1), Err(Error::InvalidAccount));
    assert_eq!(ledger.transfer(id(1), Identity::default(), 0), Err(Error::InvalidAccount));
    assert_eq!(ledger.balance_of(id(1)), Some(29));
}

#[test]
fn transfer_of_too_much_to_missing_account_reports_the_funds() {
    let mut ledger = Ledger::new();
    ledger.open_account(id(1), 29).unwrap();
    assert_eq!(ledger.transfer(id(1), id(2), 30), Err(Error::InsufficientFunds));
}

#[test]
fn transfer_that_would_overflow_is_refused() {
    let mut ledger = Ledger::new();
    ledger.open_account(id(1), 10).unwrap();
    ledger.open_account(id(2), u64::MAX - 5).unwrap();
    assert_eq!(ledger.transfer(id(1), id(2), 6), Err(Error::TransferFailed));
    assert_eq!(ledger.balance_of(id(1)), Some(10));
    assert_eq!(ledger.balance_of(id(2)), Some(u64::MAX - 5));
    assert_eq!(ledger.transfer(id(1), id(2), 5), Ok(()));
    assert_eq!(ledger.balance_of(id(1)), Some(5));
    assert_eq!(ledger.balance_of(id(2)), Some(u64::MAX));
}

#[test]
fn transfer_asset_changes_holder() {
    let mut ledger = Ledger::new();
    ledger.register_asset(id(9), id(1)).unwrap();
    ledger.register_asset(id(8), id(1)).unwrap();
    assert_eq!(ledger.transfer_asset(id(9), id(1), id(2)), Ok(()));
    assert!(ledger.holder_of(id(9)) == Some(id(2)));
    assert!(ledger.holder_of(id(8)) == Some(id(1)));
}

#[test]
fn transfer_asset_by_other_than_holder_is_refused() {
    let mut ledger = Ledger::new();
    ledger.register_asset(id(9), id(1)).unwrap();
    assert_eq!(ledger.transfer_asset(id(9), id(2), id(3)), Err(Error::Unauthorized));
    assert!(ledger.holder_of(id(9)) == Some(id(1)));
}

#[test]
fn transfer_asset_unregistered_is_refused() {
    let mut ledger = Ledger::new();
    assert_eq!(ledger.transfer_asset(id(9), id(1), id(2)), Err(Error::InvalidAsset));
    assert!(ledger.holder_of(id(9)).is_none());
}
