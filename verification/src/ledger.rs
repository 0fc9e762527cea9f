//! The ledger as a mathematical value, and what each operation makes of it.
//!
//! A [`Ledger`] is what a store holds: the accounts by client, the
//! transactions by id, and the fingerprints of the deposits and withdrawals
//! that were committed. The contracts of the storage and of the engine are
//! stated over it.

use crate::account::AccountUpdateError;
use crate::account::AccountView;
use crate::engine::fingerprint;
use crate::engine::EngineError;
use crate::engine::DEPOSIT_TAG;
use crate::engine::WITHDRAW_TAG;
use crate::transaction::TransactionState;
use crate::transaction::TransactionType;
use crate::transaction::TransactionView;
use crate::transaction::TxUpdateError;
use vstd::prelude::*;

verus! {

/// The rejection of an account as the engine reports it.
pub open spec fn account_rejection(e: AccountUpdateError) -> EngineError {
    match e {
        AccountUpdateError::AccountLocked => EngineError::AccountLocked,
        AccountUpdateError::InsufficientFunds => EngineError::InsufficientFunds,
        AccountUpdateError::AmountIsNotPositive => EngineError::AmountIsNotPositive,
    }
}

/// The rejection of a transaction as the engine reports it.
pub open spec fn transaction_rejection(e: TxUpdateError) -> EngineError {
    match e {
        TxUpdateError::InvalidTxType => EngineError::InvalidTxType,
        TxUpdateError::ForbiddenTxStateTransition { from, to } => {
            EngineError::ForbiddenTxStateTransition { from, to }
        },
    }
}

/// What the dispute workflow does to the account when the transaction moves
/// to `target`: a dispute holds the amount, a resolve releases it, a
/// chargeback removes it and locks the account. No step of the lifecycle
/// leads to `Posted`, which asks nothing of the account.
pub open spec fn settle(account: AccountView, target: TransactionState, amount: int) -> Result<
    AccountView,
    AccountUpdateError,
> {
    match target {
        TransactionState::Disputed => account.dispute(amount),
        TransactionState::Resolved => account.resolve(amount),
        TransactionState::Chargeback => account.chargeback(amount),
        TransactionState::Posted => Ok(account),
    }
}

/// Everything that a store holds.
pub ghost struct Ledger {
    /// The accounts, by client id.
    pub accounts: Map<u16, AccountView>,
    /// The deposits and withdrawals, by transaction id.
    pub transactions: Map<u32, TransactionView>,
    /// The fingerprints of the committed deposits and withdrawals.
    pub operations: Set<u64>,
}

impl Ledger {
    /// The ledger of a new store.
    pub open spec fn empty() -> Ledger {
        Ledger { accounts: Map::empty(), transactions: Map::empty(), operations: Set::empty() }
    }

    /// Whether every record is filed under its own id.
    pub open spec fn consistent(self) -> bool {
        &&& forall|id: u16| #[trigger]
            self.accounts.contains_key(id) ==> self.accounts[id].id == id
        &&& forall|id: u32| #[trigger]
            self.transactions.contains_key(id) ==> self.transactions[id].id == id
    }

    /// The account of a client, if there is one.
    pub open spec fn account(self, id: u16) -> Option<AccountView> {
        if self.accounts.contains_key(id) {
            Some(self.accounts[id])
        } else {
            None
        }
    }

    /// The transaction with an id, if there is one.
    pub open spec fn transaction(self, id: u32) -> Option<TransactionView> {
        if self.transactions.contains_key(id) {
            Some(self.transactions[id])
        } else {
            None
        }
    }

    /// The ledger with `account` filed under its id.
    pub open spec fn with_account(self, account: AccountView) -> Ledger {
        Ledger { accounts: self.accounts.insert(account.id, account), ..self }
    }

    /// The ledger with `transaction` filed under its id.
    pub open spec fn with_transaction(self, transaction: TransactionView) -> Ledger {
        Ledger { transactions: self.transactions.insert(transaction.id, transaction), ..self }
    }

    /// The ledger with one more fingerprint.
    pub open spec fn with_operation(self, fingerprint: u64) -> Ledger {
        Ledger { operations: self.operations.insert(fingerprint), ..self }
    }

    /// The ledger after a deposit, or the rejection.
    ///
    /// A deposit that was committed before changes nothing and succeeds.
    /// Otherwise the transaction id must be new; the amount goes to the
    /// client's account, which is opened where the client has none.
    pub open spec fn deposit(self, acc_id: u16, tx_id: u32, amount: int) -> Result<
        Ledger,
        EngineError,
    > {
        let account = match self.account(acc_id) {
            Some(account) => account,
            None => AccountView::new(acc_id),
        };
        if amount <= 0 {
            Err(EngineError::AmountIsNotPositive)
        } else if self.operations.contains(fingerprint(DEPOSIT_TAG, acc_id, tx_id)) {
            Ok(self)
        } else if self.transactions.contains_key(tx_id) {
            Err(EngineError::TransactionWithTheSameIdAlreadyExists)
        } else {
            match account.deposit(amount) {
                Err(e) => Err(account_rejection(e)),
                Ok(credited) => Ok(
                    self.with_transaction(
                        TransactionView::posted(tx_id, acc_id, TransactionType::Deposit, amount),
                    ).with_account(credited).with_operation(
                        fingerprint(DEPOSIT_TAG, acc_id, tx_id),
                    ),
                ),
            }
        }
    }

    /// The ledger after a withdrawal, or the rejection.
    ///
    /// A withdrawal that was committed before changes nothing and succeeds.
    /// Otherwise the transaction id must be new and the client must have an
    /// account that lets the amount go.
    pub open spec fn withdraw(self, acc_id: u16, tx_id: u32, amount: int) -> Result<
        Ledger,
        EngineError,
    > {
        if amount <= 0 {
            Err(EngineError::AmountIsNotPositive)
        } else if self.operations.contains(fingerprint(WITHDRAW_TAG, acc_id, tx_id)) {
            Ok(self)
        } else if self.transactions.contains_key(tx_id) {
            Err(EngineError::TransactionWithTheSameIdAlreadyExists)
        } else {
            match self.account(acc_id) {
                None => Err(EngineError::AccountNotFound),
                Some(account) => match account.withdraw(amount) {
                    Err(e) => Err(account_rejection(e)),
                    Ok(debited) => Ok(
                        self.with_transaction(
                            TransactionView::posted(
                                tx_id,
                                acc_id,
                                TransactionType::Withdrawal,
                                amount,
                            ),
                        ).with_account(debited).with_operation(
                            fingerprint(WITHDRAW_TAG, acc_id, tx_id),
                        ),
                    ),
                },
            }
        }
    }

    /// The ledger after the transaction `tx_id` of client `acc_id` moved to
    /// `target` in the dispute workflow, or the rejection.
    ///
    /// The transaction must exist and belong to the client, the client must
    /// have an account, the lifecycle must have the step, and the account
    /// must take the amount.
    pub open spec fn advance(self, acc_id: u16, tx_id: u32, target: TransactionState) -> Result<
        Ledger,
        EngineError,
    > {
        match self.transaction(tx_id) {
            None => Err(EngineError::TransactionNotFound),
            Some(transaction) => if transaction.account_id != acc_id {
                Err(EngineError::TransactionIsBoundToAnotherAccount(transaction.account_id))
            } else {
                match self.account(acc_id) {
                    None => Err(EngineError::AccountNotFound),
                    Some(account) => match transaction.set_state(target) {
                        Err(e) => Err(transaction_rejection(e)),
                        Ok(moved) => match settle(account, target, transaction.amount) {
                            Err(e) => Err(account_rejection(e)),
                            Ok(settled) => Ok(self.with_transaction(moved).with_account(settled)),
                        },
                    },
                }
            },
        }
    }

    /// The ledger after a dispute of the transaction, or the rejection.
    pub open spec fn dispute(self, acc_id: u16, tx_id: u32) -> Result<Ledger, EngineError> {
        self.advance(acc_id, tx_id, TransactionState::Disputed)
    }

    /// The ledger after a resolve of the transaction, or the rejection.
    pub open spec fn resolve(self, acc_id: u16, tx_id: u32) -> Result<Ledger, EngineError> {
        self.advance(acc_id, tx_id, TransactionState::Resolved)
    }

    /// The ledger after a chargeback of the transaction, or the rejection.
    pub open spec fn chargeback(self, acc_id: u16, tx_id: u32) -> Result<Ledger, EngineError> {
        self.advance(acc_id, tx_id, TransactionState::Chargeback)
    }
}

/// What a call on a store of ledgers promises. On success the ledger is the
/// one that `outcome` names. On failure the ledger is unchanged, and the error
/// is the rejection that `outcome` names unless the store itself failed.
pub open spec fn concluded(
    before: Ledger,
    after: Ledger,
    outcome: Result<Ledger, EngineError>,
    r: Result<(), EngineError>,
) -> bool {
    match r {
        Ok(()) => outcome == Ok::<Ledger, EngineError>(after),
        Err(e) => after == before && (e.is_storage_failure() || outcome == Err::<
            Ledger,
            EngineError,
        >(e)),
    }
}

} // verus!
