use state_machine::balances::Pallet;
use state_machine::support::DispatchError;

#[test]
fn init_balances() {
    let mut balances = Pallet::new();

    let alice = "alice".to_string();
    let bob = "bob".to_string();

    assert_eq!(balances.balance(&alice), 0);
    balances.set_balance(&alice, 100);
    assert_eq!(balances.balance(&alice), 100);
    assert_eq!(balances.balance(&bob), 0);
}

#[test]
fn transfer_ok() {
    let mut balances = Pallet::new();

    let alice = "alice".to_string();
    let bob = "bob".to_string();
    assert_eq!(balances.balance(&bob), 0);
    assert!(balances.transfer(&alice, &bob, 30).is_err());
    balances.set_balance(&alice, 100);
    assert_eq!(balances.transfer(&alice, &bob, 30), Ok(()));
    assert_eq!(balances.balance(&bob), 30);
    assert_eq!(balances.balance(&alice), 70);
}

#[test]
fn reading_unseen_account_inserts_nothing() {
    let balances = Pallet::new();
    let carol = "carol".to_string();
    assert_eq!(balances.balance(&carol), 0);
    assert_eq!(balances.balances.get(&carol), None);
}

#[test]
fn transfer_conserves_total() {
    let mut balances = Pallet::new();
    let alice = "alice".to_string();
    let bob = "bob".to_string();
    balances.set_balance(&alice, 100);
    balances.set_balance(&bob, 5);
    assert_eq!(balances.transfer(&alice, &bob, 100), Ok(()));
    assert_eq!(balances.balance(&alice), 0);
    assert_eq!(balances.balance(&bob), 105);
}

#[test]
fn transfer_over_balance_changes_nothing() {
    let mut balances = Pallet::new();
    let alice = "alice".to_string();
    let bob = "bob".to_string();
    balances.set_balance(&alice, 100);
    balances.set_balance(&bob, 7);
    assert_eq!(
        balances.transfer(&alice, &bob, 101),
        Err(DispatchError::InsufficientBalance)
    );
    assert_eq!(balances.balance(&alice), 100);
    assert_eq!(balances.balance(&bob), 7);
}

#[test]
fn transfer_overflow_changes_nothing() {
    let mut balances = Pallet::new();
    let alice = "alice".to_string();
    let bob = "bob".to_string();
    balances.set_balance(&alice, 10);
    balances.set_balance(&bob, u128::MAX - 5);
    assert_eq!(balances.transfer(&alice, &bob, 6), Err(DispatchError::Overflow));
    assert_eq!(balances.balance(&alice), 10);
    assert_eq!(balances.balance(&bob), u128::MAX - 5);
    assert_eq!(balances.transfer(&alice, &bob, 5), Ok(()));
    assert_eq!(balances.balance(&alice), 5);
    assert_eq!(balances.balance(&bob), u128::MAX);
}

#[test]
fn transfer_to_self_follows_read_then_write() {
    let mut balances = Pallet::new();
    let alice = "alice".to_string();
    balances.set_balance(&alice, 50);
    assert_eq!(balances.transfer(&alice, &alice, 20), Ok(()));
    assert_eq!(balances.balance(&alice), 70);
}

#[test]
fn error_reasons_are_readable() {
    assert_eq!(DispatchError::InsufficientBalance.reason(), "Not enough balance");
    assert_eq!(DispatchError::WrongBlockNumber.reason(), "Wrong block number");
    assert_eq!(DispatchError::Overflow.reason(), "Overflow");
}
