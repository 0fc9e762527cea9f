use transactions_engine::account::Account;
use transactions_engine::account::AccountUpdateError;
use transactions_engine::decimal::Decimal4;

#[test]
fn account_deposit_on_locked_account_err() {
    let mut acc = Account::new(1);
    acc.deposit(4.into()).unwrap();
    acc.dispute(2.into()).unwrap();
    acc.chargeback(2.into()).unwrap();
    assert_eq!(acc.deposit(1.into()), Err(AccountUpdateError::AccountLocked));
}

#[test]
fn account_withdraw_on_locked_account_err() {
    let mut acc = Account::new(1);
    acc.deposit(4.into()).unwrap();
    acc.dispute(2.into()).unwrap();
    acc.chargeback(2.into()).unwrap();
    assert_eq!(acc.withdraw(1.into()), Err(AccountUpdateError::AccountLocked));
}

#[test]
fn account_withdraw_on_insufficient_funds_err() {
    let mut acc = Account::new(1);
    acc.deposit(4.into()).unwrap();
    assert_eq!(acc.withdraw(5.into()), Err(AccountUpdateError::InsufficientFunds));
}

#[test]
fn account_deposit_ok() {
    let mut acc = Account::new(1);
    acc.deposit(4.into()).unwrap();
    assert_eq!(acc.available(), 4.into());
}

#[test]
fn account_withdraw_ok() {
    let mut acc = Account::new(1);
    acc.deposit(5.into()).unwrap();
    acc.withdraw(2.into()).unwrap();
    assert_eq!(acc.available(), 3.into());
}

#[test]
fn account_dispute_ok() {
    let mut acc = Account::new(1);
    acc.deposit(5.into()).unwrap();
    acc.dispute(2.into()).unwrap();
    assert_eq!(acc.available(), 3.into());
    assert_eq!(acc.held(), 2.into());
}

#[test]
fn account_resolve_ok() {
    let mut acc = Account::new(1);
    acc.deposit(5.into()).unwrap();
    acc.dispute(2.into()).unwrap();
    acc.resolve(2.into()).unwrap();
    assert_eq!(acc.available(), 5.into());
    assert_eq!(acc.held(), 0.into());
}

#[test]
fn account_chargeback_ok() {
    let mut acc = Account::new(1);
    acc.deposit(5.into()).unwrap();
    acc.dispute(2.into()).unwrap();
    acc.chargeback(2.into()).unwrap();
    assert_eq!(acc.available(), 3.into());
    assert_eq!(acc.held(), 0.into());
    assert_eq!(acc.locked(), true);
}

#[test]
fn account_version_incremented_on_deposit() {
    let mut acc = Account::new(1);
    acc.deposit(5.into()).unwrap();
    assert_eq!(acc.version(), 1);
}

#[test]
fn account_version_incremented_on_withdraw() {
    let mut acc = Account::new(1);
    acc.deposit(5.into()).unwrap();
    acc.withdraw(2.into()).unwrap();
    assert_eq!(acc.version(), 2);
}

#[test]
fn account_version_incremented_on_dispute() {
    let mut acc = Account::new(1);
    acc.deposit(5.into()).unwrap();
    acc.dispute(5.into()).unwrap();
    assert_eq!(acc.version(), 2);
}

#[test]
fn account_version_incremented_on_resolve() {
    let mut acc = Account::new(1);
    acc.deposit(5.into()).unwrap();
    acc.dispute(5.into()).unwrap();
    acc.resolve(5.into()).unwrap();
    assert_eq!(acc.version(), 3);
}

#[test]
fn account_version_incremented_on_chargeback() {
    let mut acc = Account::new(1);
    acc.deposit(5.into()).unwrap();
    acc.dispute(5.into()).unwrap();
    acc.chargeback(5.into()).unwrap();
    assert_eq!(acc.version(), 3);
}

#[test]
fn account_deposit_amount_not_positive_err() {
    let mut acc = Account::new(1);
    assert_eq!(acc.deposit(Decimal4::zero()), Err(AccountUpdateError::AmountIsNotPositive));
}

#[test]
fn account_withdraw_amount_not_positive_err() {
    let mut acc = Account::new(1);
    assert_eq!(acc.withdraw(Decimal4::zero()), Err(AccountUpdateError::AmountIsNotPositive));
}

#[test]
fn account_dispute_amount_not_positive_err() {
    let mut acc = Account::new(1);
    assert_eq!(acc.dispute(Decimal4::zero()), Err(AccountUpdateError::AmountIsNotPositive));
}

#[test]
fn account_resolve_amount_not_positive_err() {
    let mut acc = Account::new(1);
    assert_eq!(acc.resolve(Decimal4::zero()), Err(AccountUpdateError::AmountIsNotPositive));
}

#[test]
fn account_chargeback_amount_not_positive_err() {
    let mut acc = Account::new(1);
    assert_eq!(acc.chargeback(Decimal4::zero()), Err(AccountUpdateError::AmountIsNotPositive));
}

#[test]
fn account_new_is_empty() {
    let acc = Account::new(42);
    assert_eq!(acc.id(), 42);
    assert_eq!(acc.available(), Decimal4::zero());
    assert_eq!(acc.held(), Decimal4::zero());
    assert_eq!(acc.total(), Decimal4::zero());
    assert!(!acc.locked());
    assert_eq!(acc.version(), 0);
    let fresh = Account::default();
    assert_eq!(fresh.id(), 0);
    assert_eq!(fresh.version(), 0);
}

#[test]
fn account_total_is_available_plus_held() {
    let mut acc = Account::new(1);
    acc.deposit(Decimal4::from_units(123_456)).unwrap();
    acc.dispute(Decimal4::from_units(23_456)).unwrap();
    assert_eq!(acc.available(), Decimal4::from_units(100_000));
    assert_eq!(acc.held(), Decimal4::from_units(23_456));
    assert_eq!(acc.total(), Decimal4::from_units(123_456));
    assert_eq!(acc.total(), acc.available() + acc.held());
}

#[test]
fn account_negative_amount_is_rejected() {
    let mut acc = Account::new(1);
    acc.deposit(5.into()).unwrap();
    let minus = Decimal4::from(-1);
    assert_eq!(acc.deposit(minus), Err(AccountUpdateError::AmountIsNotPositive));
    assert_eq!(acc.withdraw(minus), Err(AccountUpdateError::AmountIsNotPositive));
    assert_eq!(acc.dispute(minus), Err(AccountUpdateError::AmountIsNotPositive));
    assert_eq!(acc.resolve(minus), Err(AccountUpdateError::AmountIsNotPositive));
    assert_eq!(acc.chargeback(minus), Err(AccountUpdateError::AmountIsNotPositive));
    assert_eq!(acc.available(), 5.into());
    assert_eq!(acc.version(), 1);
}

#[test]
fn account_rejection_changes_nothing() {
    let mut acc = Account::new(1);
    acc.deposit(4.into()).unwrap();
    assert_eq!(acc.withdraw(5.into()), Err(AccountUpdateError::InsufficientFunds));
    assert_eq!(acc.available(), 4.into());
    assert_eq!(acc.held(), 0.into());
    assert_eq!(acc.version(), 1);
    assert!(!acc.locked());
}

#[test]
fn account_withdraw_everything() {
    let mut acc = Account::new(1);
    acc.deposit(4.into()).unwrap();
    assert_eq!(acc.withdraw(4.into()), Ok(()));
    assert_eq!(acc.available(), 0.into());
}

#[test]
fn account_dispute_does_not_ask_for_funds() {
    let mut acc = Account::new(1);
    acc.deposit(5.into()).unwrap();
    acc.withdraw(3.into()).unwrap();
    assert_eq!(acc.dispute(5.into()), Ok(()));
    assert_eq!(acc.available(), (-3).into());
    assert_eq!(acc.held(), 5.into());
    assert_eq!(acc.total(), 2.into());
}

#[test]
fn account_locked_still_settles_disputes() {
    let mut acc = Account::new(1);
    acc.deposit(10.into()).unwrap();
    acc.dispute(2.into()).unwrap();
    acc.chargeback(2.into()).unwrap();
    assert!(acc.locked());
    assert_eq!(acc.dispute(3.into()), Ok(()));
    assert_eq!(acc.resolve(1.into()), Ok(()));
    assert_eq!(acc.chargeback(2.into()), Ok(()));
    assert!(acc.locked());
    assert_eq!(acc.available(), 6.into());
    assert_eq!(acc.held(), 0.into());
    assert_eq!(acc.total(), 6.into());
}

#[test]
fn account_dispute_then_resolve_restores_balances() {
    let mut acc = Account::new(1);
    acc.deposit(Decimal4::from_units(77_777)).unwrap();
    acc.dispute(Decimal4::from_units(12_345)).unwrap();
    acc.resolve(Decimal4::from_units(12_345)).unwrap();
    assert_eq!(acc.available(), Decimal4::from_units(77_777));
    assert_eq!(acc.held(), Decimal4::zero());
    assert!(!acc.locked());
    assert_eq!(acc.version(), 3);
}

#[test]
fn account_version_wraps() {
    let mut acc = Account::from_parts(1, 5.into(), 0.into(), false, u16::MAX);
    acc.deposit(1.into()).unwrap();
    assert_eq!(acc.version(), 0);
    assert_eq!(acc.available(), 6.into());
}
