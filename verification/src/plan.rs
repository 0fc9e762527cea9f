//! What an operation comes to, decided from what the store holds.
//!
//! The engine reads what an operation needs, hands it to one of the
//! functions here, and writes what the plan says. Nothing is decided in
//! between: the rejection, the replay that writes nothing, the account that
//! is opened or replaced, and the balance that no store can hold are all
//! settled here, for every value that a store may hand back.

use crate::account::fits;
use crate::account::Account;
use crate::account::AccountView;
use crate::decimal::Decimal4;
use crate::engine::fingerprint;
use crate::engine::EngineError;
use crate::engine::Operation;
use crate::engine::DEPOSIT_TAG;
use crate::engine::WITHDRAW_TAG;
use crate::ledger::account_rejection;
use crate::ledger::settle;
use crate::ledger::transaction_rejection;
use crate::ledger::Ledger;
use crate::transaction::Transaction;
use crate::transaction::TransactionState;
use crate::transaction::TransactionType;
use crate::transaction::TransactionView;
use vstd::prelude::*;

verus! {

/// What a committed operation writes: a transaction and an account, each new
/// or in place of the one that the store held, and the fingerprint of a
/// deposit or withdrawal.
#[derive(Debug, Clone, Copy)]
pub struct Plan {
    /// The transaction that the store held, `None` where the transaction is
    /// new.
    pub old_tx: Option<Transaction>,
    /// The transaction to file.
    pub new_tx: Transaction,
    /// The account that the store held, `None` where the account is new.
    pub old_acc: Option<Account>,
    /// The account to file.
    pub new_acc: Account,
    /// The fingerprint to put on record, if any.
    pub fingerprint: Option<u64>,
}

impl Plan {
    /// Whether each record that takes the place of another has its id.
    pub open spec fn coherent(self) -> bool {
        &&& self.old_tx matches Some(held) ==> held@.id == self.new_tx@.id
        &&& self.old_acc matches Some(held) ==> held@.id == self.new_acc@.id
    }

    /// The ledger after the plan is carried out.
    pub open spec fn written(self, ledger: Ledger) -> Ledger {
        let filed = ledger.with_transaction(self.new_tx@).with_account(self.new_acc@);
        match self.fingerprint {
            Some(fingerprint) => filed.with_operation(fingerprint),
            None => filed,
        }
    }
}

/// Whether the error is the failure that stands for an amount that no
/// [`Decimal4`] holds.
pub open spec fn is_out_of_range(e: EngineError) -> bool {
    e matches EngineError::DatabaseError(detail) && detail@ == "amount out of range"@
}

/// Whether `r` is the plan with these parts.
pub open spec fn is_plan(
    plan: Plan,
    old_tx: Option<Transaction>,
    new_tx: TransactionView,
    old_acc: Option<Account>,
    new_acc: AccountView,
    fingerprint: Option<u64>,
) -> bool {
    &&& plan.old_tx == old_tx
    &&& plan.new_tx@ == new_tx
    &&& plan.old_acc == old_acc
    &&& plan.new_acc@ == new_acc
    &&& plan.fingerprint == fingerprint
}

/// The failure that stands for an amount that no [`Decimal4`] holds.
pub fn out_of_range() -> (r: EngineError)
    ensures
        is_out_of_range(r),
        r.is_storage_failure(),
{
    EngineError::DatabaseError("amount out of range".to_owned())
}

/// Whether the account can take the deposit without a balance leaving the
/// range of [`Decimal4`].
fn deposit_fits(account: &Account, amount: Decimal4) -> (r: bool)
    ensures
        r == fits(account@.deposit(amount@)),
{
    proof {
        account.lemma_representable();
    }
    if !amount.is_positive() || account.locked() {
        return true;
    }
    account.available().checked_add(amount).is_some()
}

/// Whether the account can take the step of the dispute workflow without a
/// balance leaving the range of [`Decimal4`].
fn settle_fits(account: &Account, target: TransactionState, amount: Decimal4) -> (r: bool)
    ensures
        r == fits(settle(account@, target, amount@)),
{
    proof {
        account.lemma_representable();
    }
    if !amount.is_positive() {
        return true;
    }
    let (debited, credited): (Decimal4, Option<Decimal4>) = match target {
        TransactionState::Disputed => (account.available(), Some(account.held())),
        TransactionState::Resolved => (account.held(), Some(account.available())),
        TransactionState::Chargeback => (account.held(), None),
        TransactionState::Posted => {
            return true;
        },
    };
    if debited.checked_sub(amount).is_none() {
        return false;
    }
    match credited {
        Some(balance) => balance.checked_add(amount).is_some(),
        None => true,
    }
}

/// What a deposit comes to, given whether its fingerprint is on record, the
/// transaction that the store holds under its id and the account that the
/// store holds for its client.
///
/// An amount that is not positive is rejected. A deposit on record writes
/// nothing. A transaction id in use is rejected. Else the amount goes to the
/// account that was found, or to a fresh one where none was found; what the
/// account rejects is rejected, and a balance that leaves the range is a
/// failure.
pub fn plan_deposit(
    acc_id: u16,
    tx_id: u32,
    amount: Decimal4,
    processed: bool,
    found_tx: Option<Transaction>,
    found_acc: Option<Account>,
) -> (r: Result<Option<Plan>, EngineError>)
    ensures
        amount@ <= 0 ==> r == Err::<Option<Plan>, EngineError>(EngineError::AmountIsNotPositive),
        amount@ > 0 && processed ==> r == Ok::<Option<Plan>, EngineError>(None),
        amount@ > 0 && !processed && found_tx is Some ==> r == Err::<Option<Plan>, EngineError>(
            EngineError::TransactionWithTheSameIdAlreadyExists,
        ),
        amount@ > 0 && !processed && found_tx is None ==> ({
            let before = match found_acc {
                Some(account) => account@,
                None => AccountView::new(acc_id),
            };
            match before.deposit(amount@) {
                Err(e) => r == Err::<Option<Plan>, EngineError>(account_rejection(e)),
                Ok(next) => if next.representable() {
                    r matches Ok(Some(plan)) && is_plan(
                        plan,
                        None,
                        TransactionView::posted(tx_id, acc_id, TransactionType::Deposit, amount@),
                        found_acc,
                        next,
                        Some(fingerprint(DEPOSIT_TAG, acc_id, tx_id)),
                    )
                } else {
                    r matches Err(e) && is_out_of_range(e)
                },
            }
        }),
{
    if !amount.is_positive() {
        return Err(EngineError::AmountIsNotPositive);
    }
    if processed {
        return Ok(None);
    }
    if found_tx.is_some() {
        return Err(EngineError::TransactionWithTheSameIdAlreadyExists);
    }
    let mut new_acc = match found_acc {
        Some(account) => account,
        None => Account::new(acc_id),
    };
    if !deposit_fits(&new_acc, amount) {
        return Err(out_of_range());
    }
    match new_acc.deposit(amount) {
        Ok(()) => {},
        Err(e) => {
            return Err(EngineError::from(e));
        },
    }
    let operation = Operation::Deposit { acc_id, tx_id, amount };
    Ok(
        Some(
            Plan {
                old_tx: None,
                new_tx: Transaction::new(tx_id, acc_id, TransactionType::Deposit, amount),
                old_acc: found_acc,
                new_acc,
                fingerprint: Some(operation.get_hash_code()),
            },
        ),
    )
}

/// What a withdrawal comes to, given whether its fingerprint is on record,
/// the transaction that the store holds under its id and the account that
/// the store holds for its client.
///
/// An amount that is not positive is rejected. A withdrawal on record writes
/// nothing. A transaction id in use is rejected, and so is a client without
/// an account. Else the amount leaves the account, unless the account
/// rejects it.
pub fn plan_withdraw(
    acc_id: u16,
    tx_id: u32,
    amount: Decimal4,
    processed: bool,
    found_tx: Option<Transaction>,
    found_acc: Option<Account>,
) -> (r: Result<Option<Plan>, EngineError>)
    ensures
        amount@ <= 0 ==> r == Err::<Option<Plan>, EngineError>(EngineError::AmountIsNotPositive),
        amount@ > 0 && processed ==> r == Ok::<Option<Plan>, EngineError>(None),
        amount@ > 0 && !processed && found_tx is Some ==> r == Err::<Option<Plan>, EngineError>(
            EngineError::TransactionWithTheSameIdAlreadyExists,
        ),
        amount@ > 0 && !processed && found_tx is None ==> match found_acc {
            None => r == Err::<Option<Plan>, EngineError>(EngineError::AccountNotFound),
            Some(account) => match account@.withdraw(amount@) {
                Err(e) => r == Err::<Option<Plan>, EngineError>(account_rejection(e)),
                Ok(next) => r matches Ok(Some(plan)) && is_plan(
                    plan,
                    None,
                    TransactionView::posted(tx_id, acc_id, TransactionType::Withdrawal, amount@),
                    found_acc,
                    next,
                    Some(fingerprint(WITHDRAW_TAG, acc_id, tx_id)),
                ),
            },
        },
{
    if !amount.is_positive() {
        return Err(EngineError::AmountIsNotPositive);
    }
    if processed {
        return Ok(None);
    }
    if found_tx.is_some() {
        return Err(EngineError::TransactionWithTheSameIdAlreadyExists);
    }
    let mut new_acc = match found_acc {
        Some(account) => account,
        None => {
            return Err(EngineError::AccountNotFound);
        },
    };
    match new_acc.withdraw(amount) {
        Ok(()) => {},
        Err(e) => {
            return Err(EngineError::from(e));
        },
    }
    let operation = Operation::Withdraw { acc_id, tx_id, amount };
    Ok(
        Some(
            Plan {
                old_tx: None,
                new_tx: Transaction::new(tx_id, acc_id, TransactionType::Withdrawal, amount),
                old_acc: found_acc,
                new_acc,
                fingerprint: Some(operation.get_hash_code()),
            },
        ),
    )
}

/// The transaction that a dispute, resolve or chargeback of client `acc_id`
/// is about, given what the store holds under the transaction id: the
/// transaction that was found, unless none was found or it belongs to
/// another client.
pub fn find_owned(acc_id: u16, found_tx: Option<Transaction>) -> (r: Result<
    Transaction,
    EngineError,
>)
    ensures
        match found_tx {
            None => r == Err::<Transaction, EngineError>(EngineError::TransactionNotFound),
            Some(transaction) => if transaction@.account_id != acc_id {
                r == Err::<Transaction, EngineError>(
                    EngineError::TransactionIsBoundToAnotherAccount(transaction@.account_id),
                )
            } else {
                r == Ok::<Transaction, EngineError>(transaction)
            },
        },
{
    match found_tx {
        None => Err(EngineError::TransactionNotFound),
        Some(transaction) => {
            if transaction.account_id() != acc_id {
                Err(EngineError::TransactionIsBoundToAnotherAccount(transaction.account_id()))
            } else {
                Ok(transaction)
            }
        },
    }
}

/// What the step of the dispute workflow that takes `transaction` to
/// `target` comes to, given the account that the store holds for its client.
///
/// A client without an account is rejected; so is a step that the lifecycle
/// does not have, and an amount that the account does not take. A balance
/// that leaves the range is a failure. Else the transaction moves to
/// `target` and the account settles its amount.
pub fn plan_settlement(
    found_acc: Option<Account>,
    target: TransactionState,
    transaction: Transaction,
) -> (r: Result<Plan, EngineError>)
    ensures
        match found_acc {
            None => r == Err::<Plan, EngineError>(EngineError::AccountNotFound),
            Some(account) => match transaction@.set_state(target) {
                Err(e) => r == Err::<Plan, EngineError>(transaction_rejection(e)),
                Ok(moved) => match settle(account@, target, transaction@.amount) {
                    Err(e) => r == Err::<Plan, EngineError>(account_rejection(e)),
                    Ok(settled) => if settled.representable() {
                        r matches Ok(plan) && is_plan(
                            plan,
                            Some(transaction),
                            moved,
                            found_acc,
                            settled,
                            None,
                        )
                    } else {
                        r matches Err(e) && is_out_of_range(e)
                    },
                },
            },
        },
{
    let old_acc = match found_acc {
        Some(account) => account,
        None => {
            return Err(EngineError::AccountNotFound);
        },
    };
    let mut new_tx = transaction;
    match new_tx.set_state(target) {
        Ok(()) => {},
        Err(e) => {
            return Err(EngineError::from(e));
        },
    }
    let amount = new_tx.amount();
    if !settle_fits(&old_acc, target, amount) {
        return Err(out_of_range());
    }
    let mut new_acc = old_acc;
    let settled = match target {
        TransactionState::Disputed => new_acc.dispute(amount),
        TransactionState::Resolved => new_acc.resolve(amount),
        TransactionState::Chargeback => new_acc.chargeback(amount),
        TransactionState::Posted => Ok(()),
    };
    match settled {
        Ok(()) => {},
        Err(e) => {
            return Err(EngineError::from(e));
        },
    }
    Ok(Plan { old_tx: Some(transaction), new_tx, old_acc: found_acc, new_acc, fingerprint: None })
}

} // verus!
