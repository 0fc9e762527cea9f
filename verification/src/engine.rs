//! The five operations of the ledger, each run in one unit of work of a
//! store.
//!
//! An operation reads what it needs, lets [`crate::plan`] decide on what it
//! read, writes what the plan says and commits; where it is rejected or the
//! store fails, the unit of work is dropped and nothing of it shows. The
//! engine does not try again.
//!
//! Deposits and withdrawals are committed at most once: each puts its
//! fingerprint on record, and one that finds its fingerprint there succeeds
//! without effect. Disputes, resolves and chargebacks are neither recorded
//! nor looked up. A repeated one is turned away by the lifecycle of the
//! transaction, which has no step from a state to itself, and a dispute that
//! follows a resolve is a new dispute, not a replay of the first.
//!
//! A balance that would leave the range of [`Decimal4`] is reported as
//! [`EngineError::DatabaseError`]: no store can hold it.
//!
//! Every operation keeps what [`crate::laws::sound`] asks of a ledger, so the
//! held funds of a client are always the amounts of the client's disputed
//! deposits and never negative. Available funds fall below zero only where a
//! deposit is disputed after part of it was withdrawn.

use crate::account::Account;
use crate::account::AccountUpdateError;
use crate::decimal::Decimal4;
use crate::laws::keeps_invariants;
use crate::laws::lemma_invariants_are_kept;
use crate::ledger::account_rejection;
use crate::ledger::concluded;
use crate::ledger::transaction_rejection;
use crate::ledger::Ledger;
use crate::plan::find_owned;
use crate::plan::plan_deposit;
use crate::plan::plan_settlement;
use crate::plan::plan_withdraw;
use crate::plan::Plan;
use crate::storage::is_account_of;
use crate::storage::is_transaction_of;
use crate::storage::lists_accounts;
use crate::storage::DbError;
use crate::storage::EchoDbStorage;
use crate::storage::Storage;
use crate::transaction::Transaction;
use crate::transaction::TransactionState;
use crate::transaction::TxUpdateError;
use vstd::prelude::*;
use vstd::std_specs::convert::FromSpecImpl;

verus! {

/// The tag of a deposit in a fingerprint.
pub const DEPOSIT_TAG: u8 = 1;

/// The tag of a withdrawal in a fingerprint.
pub const WITHDRAW_TAG: u8 = 2;

/// The tag of a dispute in a fingerprint.
pub const DISPUTE_TAG: u8 = 3;

/// The tag of a resolve in a fingerprint.
pub const RESOLVE_TAG: u8 = 4;

/// The tag of a chargeback in a fingerprint.
pub const CHARGEBACK_TAG: u8 = 5;

/// The fingerprint of an operation: its kind, client and transaction id side
/// by side in one number. The amount has no part in it.
pub open spec fn fingerprint(tag: u8, acc_id: u16, tx_id: u32) -> u64 {
    (tag * 0x1_0000_0000_0000 + acc_id * 0x1_0000_0000 + tx_id) as u64
}

/// Two operations have the same fingerprint only where they are of the same
/// kind, client and transaction id.
pub proof fn lemma_fingerprint_injective(
    tag: u8,
    acc_id: u16,
    tx_id: u32,
    other_tag: u8,
    other_acc_id: u16,
    other_tx_id: u32,
)
    requires
        fingerprint(tag, acc_id, tx_id) == fingerprint(other_tag, other_acc_id, other_tx_id),
    ensures
        tag == other_tag,
        acc_id == other_acc_id,
        tx_id == other_tx_id,
{
}

/// One request to the engine.
#[derive(Debug, Clone, Copy, PartialEq, Eq)]
pub enum Operation {
    Deposit { acc_id: u16, tx_id: u32, amount: Decimal4 },
    Withdraw { acc_id: u16, tx_id: u32, amount: Decimal4 },
    Dispute { acc_id: u16, tx_id: u32 },
    Resolve { acc_id: u16, tx_id: u32 },
    Chargeback { acc_id: u16, tx_id: u32 },
}

impl Operation {
    /// The tag of the operation's kind.
    pub open spec fn tag(self) -> u8 {
        match self {
            Operation::Deposit { .. } => DEPOSIT_TAG,
            Operation::Withdraw { .. } => WITHDRAW_TAG,
            Operation::Dispute { .. } => DISPUTE_TAG,
            Operation::Resolve { .. } => RESOLVE_TAG,
            Operation::Chargeback { .. } => CHARGEBACK_TAG,
        }
    }

    /// The client that the operation names.
    pub open spec fn acc_id(self) -> u16 {
        match self {
            Operation::Deposit { acc_id, .. } => acc_id,
            Operation::Withdraw { acc_id, .. } => acc_id,
            Operation::Dispute { acc_id, .. } => acc_id,
            Operation::Resolve { acc_id, .. } => acc_id,
            Operation::Chargeback { acc_id, .. } => acc_id,
        }
    }

    /// The transaction that the operation names.
    pub open spec fn tx_id(self) -> u32 {
        match self {
            Operation::Deposit { tx_id, .. } => tx_id,
            Operation::Withdraw { tx_id, .. } => tx_id,
            Operation::Dispute { tx_id, .. } => tx_id,
            Operation::Resolve { tx_id, .. } => tx_id,
            Operation::Chargeback { tx_id, .. } => tx_id,
        }
    }

    /// What the operation makes of a ledger, or the rejection.
    pub open spec fn outcome(self, ledger: Ledger) -> Result<Ledger, EngineError> {
        match self {
            Operation::Deposit { acc_id, tx_id, amount } => ledger.deposit(acc_id, tx_id, amount@),
            Operation::Withdraw { acc_id, tx_id, amount } => ledger.withdraw(
                acc_id,
                tx_id,
                amount@,
            ),
            Operation::Dispute { acc_id, tx_id } => ledger.dispute(acc_id, tx_id),
            Operation::Resolve { acc_id, tx_id } => ledger.resolve(acc_id, tx_id),
            Operation::Chargeback { acc_id, tx_id } => ledger.chargeback(acc_id, tx_id),
        }
    }

    /// The fingerprint of the operation.
    pub fn get_hash_code(&self) -> (r: u64)
        ensures
            r == fingerprint(self.tag(), self.acc_id(), self.tx_id()),
    {
        let (tag, acc_id, tx_id): (u8, u16, u32) = match self {
            Operation::Deposit { acc_id, tx_id, amount: _ } => (DEPOSIT_TAG, *acc_id, *tx_id),
            Operation::Withdraw { acc_id, tx_id, amount: _ } => (WITHDRAW_TAG, *acc_id, *tx_id),
            Operation::Dispute { acc_id, tx_id } => (DISPUTE_TAG, *acc_id, *tx_id),
            Operation::Resolve { acc_id, tx_id } => (RESOLVE_TAG, *acc_id, *tx_id),
            Operation::Chargeback { acc_id, tx_id } => (CHARGEBACK_TAG, *acc_id, *tx_id),
        };
        (tag as u64) * 0x1_0000_0000_0000 + (acc_id as u64) * 0x1_0000_0000 + (tx_id as u64)
    }
}

/// Why the engine refused an operation.
#[derive(Debug, PartialEq, Eq)]
pub enum EngineError {
    AccountNotFound,
    TransactionNotFound,
    AccountLocked,
    InsufficientFunds,
    AmountIsNotPositive,
    TransactionWithTheSameIdAlreadyExists,
    /// The transaction belongs to the account that the error names.
    TransactionIsBoundToAnotherAccount(u16),
    /// Only deposits can be disputed, resolved or charged back.
    InvalidTxType,
    ForbiddenTxStateTransition { from: TransactionState, to: TransactionState },
    /// The store found another writer at work on the same entities.
    ConcurrentOperationDetected,
    /// The store failed, or cannot hold the amount that the operation leads
    /// to.
    DatabaseError(String),
}

impl EngineError {
    /// Whether the error tells of the store and not of the ledger's rules.
    pub open spec fn is_storage_failure(self) -> bool {
        self is ConcurrentOperationDetected || self is DatabaseError
    }
}

impl From<DbError> for EngineError {
    fn from(err: DbError) -> (r: EngineError) {
        match err {
            DbError::EntityAlreadyExists => EngineError::ConcurrentOperationDetected,
            DbError::ConcurrentModification => EngineError::ConcurrentOperationDetected,
            DbError::DatabaseError(msg) => EngineError::DatabaseError(msg),
        }
    }
}

impl FromSpecImpl<DbError> for EngineError {
    open spec fn obeys_from_spec() -> bool {
        true
    }

    open spec fn from_spec(err: DbError) -> EngineError {
        match err {
            DbError::EntityAlreadyExists => EngineError::ConcurrentOperationDetected,
            DbError::ConcurrentModification => EngineError::ConcurrentOperationDetected,
            DbError::DatabaseError(msg) => EngineError::DatabaseError(msg),
        }
    }
}

impl From<AccountUpdateError> for EngineError {
    fn from(err: AccountUpdateError) -> (r: EngineError) {
        match err {
            AccountUpdateError::AccountLocked => EngineError::AccountLocked,
            AccountUpdateError::InsufficientFunds => EngineError::InsufficientFunds,
            AccountUpdateError::AmountIsNotPositive => EngineError::AmountIsNotPositive,
        }
    }
}

impl FromSpecImpl<AccountUpdateError> for EngineError {
    open spec fn obeys_from_spec() -> bool {
        true
    }

    open spec fn from_spec(err: AccountUpdateError) -> EngineError {
        account_rejection(err)
    }
}

impl From<TxUpdateError> for EngineError {
    fn from(err: TxUpdateError) -> (r: EngineError) {
        match err {
            TxUpdateError::InvalidTxType => EngineError::InvalidTxType,
            TxUpdateError::ForbiddenTxStateTransition { from, to } => {
                EngineError::ForbiddenTxStateTransition { from, to }
            },
        }
    }
}

impl FromSpecImpl<TxUpdateError> for EngineError {
    open spec fn obeys_from_spec() -> bool {
        true
    }

    open spec fn from_spec(err: TxUpdateError) -> EngineError {
        transaction_rejection(err)
    }
}

/// Applies operations to the ledger that a store holds, one unit of work
/// each.
pub struct Engine<TStorage: Storage> {
    storage: TStorage,
}

impl<TStorage: Storage> Engine<TStorage> {
    /// The committed state of the store.
    pub closed spec fn ledger(&self) -> Ledger {
        self.storage.committed()
    }

    /// The ledger of an engine files every record under its own id.
    pub proof fn lemma_ledger_is_consistent(&self)
        ensures
            self.ledger().consistent(),
    {
        self.storage.lemma_committed_is_consistent();
    }

    /// An engine over `storage`.
    pub fn new(storage: TStorage) -> (r: Self)
        ensures
            r.ledger() == storage.committed(),
    {
        Self { storage }
    }

    /// Applies one operation.
    pub fn execute_operation(&mut self, operation: Operation) -> (r: Result<(), EngineError>)
        ensures
            concluded(
                old(self).ledger(),
                final(self).ledger(),
                operation.outcome(old(self).ledger()),
                r,
            ),
            keeps_invariants(old(self).ledger(), final(self).ledger(), operation),
    {
        match operation {
            Operation::Deposit { acc_id, tx_id, amount } => self.deposit(acc_id, tx_id, amount),
            Operation::Withdraw { acc_id, tx_id, amount } => self.withdraw(acc_id, tx_id, amount),
            Operation::Dispute { acc_id, tx_id } => self.dispute(acc_id, tx_id),
            Operation::Resolve { acc_id, tx_id } => self.resolve(acc_id, tx_id),
            Operation::Chargeback { acc_id, tx_id } => self.chargeback(acc_id, tx_id),
        }
    }

    /// The account of a client, if there is one. Fails only where the store
    /// does.
    pub fn get_account(&mut self, acc_id: u16) -> (r: Result<Option<Account>, EngineError>)
        ensures
            final(self).ledger() == old(self).ledger(),
            match r {
                Ok(found) => is_account_of(old(self).ledger(), acc_id, found),
                Err(e) => e.is_storage_failure(),
            },
    {
        let mut db_tx = match self.storage.start_db_tx() {
            Ok(db_tx) => db_tx,
            Err(e) => {
                return Err(EngineError::from(e));
            },
        };
        let account = match self.storage.get_account(&mut db_tx, acc_id) {
            Ok(account) => account,
            Err(e) => {
                return Err(EngineError::from(e));
            },
        };
        match self.storage.commit_db_tx(db_tx) {
            Ok(()) => Ok(account),
            Err(e) => Err(EngineError::from(e)),
        }
    }

    /// Every account, each once, in no particular order. Fails only where
    /// the store does.
    pub fn get_all_accounts(&mut self) -> (r: Result<Vec<Account>, EngineError>)
        ensures
            final(self).ledger() == old(self).ledger(),
            match r {
                Ok(listed) => lists_accounts(old(self).ledger(), listed@),
                Err(e) => e.is_storage_failure(),
            },
    {
        let mut db_tx = match self.storage.start_db_tx() {
            Ok(db_tx) => db_tx,
            Err(e) => {
                return Err(EngineError::from(e));
            },
        };
        let accounts = match self.storage.get_all_accounts(&mut db_tx) {
            Ok(accounts) => accounts,
            Err(e) => {
                return Err(EngineError::from(e));
            },
        };
        match self.storage.commit_db_tx(db_tx) {
            Ok(()) => Ok(accounts),
            Err(e) => Err(EngineError::from(e)),
        }
    }

    /// Credits `amount` to the client's account, which is opened where the
    /// client has none, and records the transaction `tx_id`.
    ///
    /// An amount that is not positive is rejected whatever the store holds.
    /// A deposit that was committed before succeeds and changes nothing,
    /// whatever its amount.
    pub fn deposit(&mut self, acc_id: u16, tx_id: u32, amount: Decimal4) -> (r: Result<
        (),
        EngineError,
    >)
        ensures
            concluded(
                old(self).ledger(),
                final(self).ledger(),
                old(self).ledger().deposit(acc_id, tx_id, amount@),
                r,
            ),
            amount@ <= 0 ==> r == Err::<(), EngineError>(EngineError::AmountIsNotPositive),
            keeps_invariants(
                old(self).ledger(),
                final(self).ledger(),
                Operation::Deposit { acc_id, tx_id, amount },
            ),
    {
        proof {
            lemma_invariants_are_kept(self.ledger(), Operation::Deposit { acc_id, tx_id, amount });
        }
        if !amount.is_positive() {
            return Err(EngineError::AmountIsNotPositive);
        }
        let mut db_tx = match self.storage.start_db_tx() {
            Ok(db_tx) => db_tx,
            Err(e) => {
                return Err(EngineError::from(e));
            },
        };
        let operation = Operation::Deposit { acc_id, tx_id, amount };
        let (processed, found_tx, found_acc) = match self.read(
            &mut db_tx,
            operation.get_hash_code(),
            tx_id,
            acc_id,
        ) {
            Ok(found) => found,
            Err(e) => {
                return Err(e);
            },
        };
        match plan_deposit(acc_id, tx_id, amount, processed, found_tx, found_acc) {
            Ok(plan) => self.carry_out(db_tx, plan),
            Err(e) => Err(e),
        }
    }

    /// Debits `amount` from the client's account and records the transaction
    /// `tx_id`.
    ///
    /// An amount that is not positive is rejected whatever the store holds.
    /// A withdrawal that was committed before succeeds and changes nothing,
    /// whatever its amount.
    pub fn withdraw(&mut self, acc_id: u16, tx_id: u32, amount: Decimal4) -> (r: Result<
        (),
        EngineError,
    >)
        ensures
            concluded(
                old(self).ledger(),
                final(self).ledger(),
                old(self).ledger().withdraw(acc_id, tx_id, amount@),
                r,
            ),
            amount@ <= 0 ==> r == Err::<(), EngineError>(EngineError::AmountIsNotPositive),
            keeps_invariants(
                old(self).ledger(),
                final(self).ledger(),
                Operation::Withdraw { acc_id, tx_id, amount },
            ),
    {
        proof {
            lemma_invariants_are_kept(self.ledger(), Operation::Withdraw { acc_id, tx_id, amount });
        }
        if !amount.is_positive() {
            return Err(EngineError::AmountIsNotPositive);
        }
        let mut db_tx = match self.storage.start_db_tx() {
            Ok(db_tx) => db_tx,
            Err(e) => {
                return Err(EngineError::from(e));
            },
        };
        let operation = Operation::Withdraw { acc_id, tx_id, amount };
        let (processed, found_tx, found_acc) = match self.read(
            &mut db_tx,
            operation.get_hash_code(),
            tx_id,
            acc_id,
        ) {
            Ok(found) => found,
            Err(e) => {
                return Err(e);
            },
        };
        match plan_withdraw(acc_id, tx_id, amount, processed, found_tx, found_acc) {
            Ok(plan) => self.carry_out(db_tx, plan),
            Err(e) => Err(e),
        }
    }

    /// Moves the amount of the deposit `tx_id` from the client's available
    /// funds to the held ones.
    pub fn dispute(&mut self, acc_id: u16, tx_id: u32) -> (r: Result<(), EngineError>)
        ensures
            concluded(
                old(self).ledger(),
                final(self).ledger(),
                old(self).ledger().dispute(acc_id, tx_id),
                r,
            ),
            keeps_invariants(
                old(self).ledger(),
                final(self).ledger(),
                Operation::Dispute { acc_id, tx_id },
            ),
    {
        proof {
            lemma_invariants_are_kept(self.ledger(), Operation::Dispute { acc_id, tx_id });
        }
        self.advance(acc_id, tx_id, TransactionState::Disputed)
    }

    /// Moves the amount of the disputed deposit `tx_id` back to the client's
    /// available funds.
    pub fn resolve(&mut self, acc_id: u16, tx_id: u32) -> (r: Result<(), EngineError>)
        ensures
            concluded(
                old(self).ledger(),
                final(self).ledger(),
                old(self).ledger().resolve(acc_id, tx_id),
                r,
            ),
            keeps_invariants(
                old(self).ledger(),
                final(self).ledger(),
                Operation::Resolve { acc_id, tx_id },
            ),
    {
        proof {
            lemma_invariants_are_kept(self.ledger(), Operation::Resolve { acc_id, tx_id });
        }
        self.advance(acc_id, tx_id, TransactionState::Resolved)
    }

    /// Removes the amount of the disputed deposit `tx_id` from the client's
    /// held funds and locks the account.
    pub fn chargeback(&mut self, acc_id: u16, tx_id: u32) -> (r: Result<(), EngineError>)
        ensures
            concluded(
                old(self).ledger(),
                final(self).ledger(),
                old(self).ledger().chargeback(acc_id, tx_id),
                r,
            ),
            keeps_invariants(
                old(self).ledger(),
                final(self).ledger(),
                Operation::Chargeback { acc_id, tx_id },
            ),
    {
        proof {
            lemma_invariants_are_kept(self.ledger(), Operation::Chargeback { acc_id, tx_id });
        }
        self.advance(acc_id, tx_id, TransactionState::Chargeback)
    }

    /// The step of the dispute workflow that takes the transaction to
    /// `target`.
    fn advance(&mut self, acc_id: u16, tx_id: u32, target: TransactionState) -> (r: Result<
        (),
        EngineError,
    >)
        ensures
            concluded(
                old(self).ledger(),
                final(self).ledger(),
                old(self).ledger().advance(acc_id, tx_id, target),
                r,
            ),
    {
        let mut db_tx = match self.storage.start_db_tx() {
            Ok(db_tx) => db_tx,
            Err(e) => {
                return Err(EngineError::from(e));
            },
        };
        let found_tx = match self.storage.get_tx(&mut db_tx, tx_id) {
            Ok(found) => found,
            Err(e) => {
                return Err(EngineError::from(e));
            },
        };
        let old_tx = match find_owned(acc_id, found_tx) {
            Ok(transaction) => transaction,
            Err(e) => {
                return Err(e);
            },
        };
        let found_acc = match self.storage.get_account(&mut db_tx, acc_id) {
            Ok(found) => found,
            Err(e) => {
                return Err(EngineError::from(e));
            },
        };
        match plan_settlement(found_acc, target, old_tx) {
            Ok(plan) => self.carry_out(db_tx, Some(plan)),
            Err(e) => Err(e),
        }
    }

    /// Reads what a deposit or a withdrawal is decided on: whether the
    /// fingerprint is on record, the transaction with the id `tx_id` and the
    /// account of client `acc_id`. Fails only where the store does.
    fn read(&self, db_tx: &mut TStorage::DbTx, op_hash: u64, tx_id: u32, acc_id: u16) -> (r:
        Result<(bool, Option<Transaction>, Option<Account>), EngineError>)
        ensures
            self.storage.pending(final(db_tx)) == self.storage.pending(old(db_tx)),
            self.storage.active(final(db_tx)) == self.storage.active(old(db_tx)),
            match r {
                Ok((processed, found_tx, found_acc)) => {
                    &&& processed == self.storage.pending(old(db_tx)).operations.contains(op_hash)
                    &&& is_transaction_of(self.storage.pending(old(db_tx)), tx_id, found_tx)
                    &&& is_account_of(self.storage.pending(old(db_tx)), acc_id, found_acc)
                },
                Err(e) => e.is_storage_failure(),
            },
    {
        let processed = match self.storage.is_operation_processed(db_tx, op_hash) {
            Ok(processed) => processed,
            Err(e) => {
                return Err(EngineError::from(e));
            },
        };
        let found_tx = match self.storage.get_tx(db_tx, tx_id) {
            Ok(found) => found,
            Err(e) => {
                return Err(EngineError::from(e));
            },
        };
        let found_acc = match self.storage.get_account(db_tx, acc_id) {
            Ok(found) => found,
            Err(e) => {
                return Err(EngineError::from(e));
            },
        };
        Ok((processed, found_tx, found_acc))
    }

    /// Writes what a plan says and commits the unit of work; where there is
    /// no plan, commits the unit of work as it is. A transaction or account
    /// that the plan found in the store takes the place of that one, a new
    /// one is filed. Fails only where the store does, and then nothing of
    /// the unit of work shows.
    fn carry_out(&mut self, db_tx: TStorage::DbTx, plan: Option<Plan>) -> (r: Result<
        (),
        EngineError,
    >)
        requires
            old(self).storage.active(&db_tx),
            plan matches Some(writes) ==> writes.coherent(),
        ensures
            match r {
                Ok(()) => final(self).ledger() == match plan {
                    Some(writes) => writes.written(old(self).storage.pending(&db_tx)),
                    None => old(self).storage.pending(&db_tx),
                },
                Err(e) => final(self).ledger() == old(self).ledger() && e.is_storage_failure(),
            },
    {
        let mut db_tx = db_tx;
        match plan {
            None => {},
            Some(writes) => {
                let filed = match writes.old_tx {
                    Some(old_tx) => self.storage.update_tx(&mut db_tx, &old_tx, &writes.new_tx),
                    None => self.storage.insert_tx(&mut db_tx, &writes.new_tx),
                };
                match filed {
                    Ok(()) => {},
                    Err(e) => {
                        return Err(EngineError::from(e));
                    },
                }
                let filed = match writes.old_acc {
                    Some(old_acc) => self.storage.update_account(
                        &mut db_tx,
                        &old_acc,
                        &writes.new_acc,
                    ),
                    None => self.storage.insert_account(&mut db_tx, &writes.new_acc),
                };
                match filed {
                    Ok(()) => {},
                    Err(e) => {
                        return Err(EngineError::from(e));
                    },
                }
                match writes.fingerprint {
                    Some(fingerprint) => match self.storage.insert_operation(
                        &mut db_tx,
                        fingerprint,
                    ) {
                        Ok(()) => {},
                        Err(e) => {
                            return Err(EngineError::from(e));
                        },
                    },
                    None => {},
                }
            },
        }
        match self.storage.commit_db_tx(db_tx) {
            Ok(()) => Ok(()),
            Err(e) => Err(EngineError::from(e)),
        }
    }
}

impl Default for Engine<EchoDbStorage> {
    /// An engine over an empty store in memory.
    fn default() -> (r: Self)
        ensures
            r.ledger() == Ledger::empty(),
    {
        Engine::new(EchoDbStorage::new())
    }
}

} // verus!
