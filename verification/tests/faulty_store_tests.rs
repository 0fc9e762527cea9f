use transactions_engine::account::Account;
use transactions_engine::account::AccountUpdateError;
use transactions_engine::decimal::Decimal4;
use transactions_engine::engine::Engine;
use transactions_engine::engine::EngineError;
use transactions_engine::ledger::Ledger;
use transactions_engine::storage::DbError;
use transactions_engine::storage::EchoDbStorage;
use transactions_engine::storage::Storage;
use transactions_engine::transaction::Transaction;
use transactions_engine::transaction::TransactionState;
use transactions_engine::transaction::TransactionType;
use transactions_engine::transaction::TxUpdateError;

/// A store that does what the store in memory does until told to refuse the
/// writes of one kind.
struct FaultyStore {
    inner: EchoDbStorage,
    refuse_updates: bool,
    refuse_inserts: bool,
    refuse_commit: bool,
}

impl FaultyStore {
    fn new() -> Self {
        FaultyStore {
            inner: EchoDbStorage::new(),
            refuse_updates: false,
            refuse_inserts: false,
            refuse_commit: false,
        }
    }
}

impl Storage for FaultyStore {
    type DbTx = <EchoDbStorage as Storage>::DbTx;

    // The model of a store serves proofs only: compiled code never asks for
    // it.
    fn committed(&self) -> Ledger {
        unreachable!()
    }

    fn pending(&self, _db_tx: &Self::DbTx) -> Ledger {
        unreachable!()
    }

    fn active(&self, _db_tx: &Self::DbTx) -> bool {
        unreachable!()
    }

    fn lemma_committed_is_consistent(&self) {
        unreachable!()
    }

    fn get_tx(&self, db_tx: &mut Self::DbTx, tx_id: u32) -> Result<Option<Transaction>, DbError> {
        self.inner.get_tx(db_tx, tx_id)
    }

    fn insert_tx(&self, db_tx: &mut Self::DbTx, tx: &Transaction) -> Result<(), DbError> {
        if self.refuse_inserts {
            return Err(DbError::EntityAlreadyExists);
        }
        self.inner.insert_tx(db_tx, tx)
    }

    fn update_tx(
        &self,
        db_tx: &mut Self::DbTx,
        old_tx: &Transaction,
        new_tx: &Transaction,
    ) -> Result<(), DbError> {
        self.inner.update_tx(db_tx, old_tx, new_tx)
    }

    fn get_account(&self, db_tx: &mut Self::DbTx, acc_id: u16) -> Result<Option<Account>, DbError> {
        self.inner.get_account(db_tx, acc_id)
    }

    fn get_all_accounts(&self, db_tx: &mut Self::DbTx) -> Result<Vec<Account>, DbError> {
        self.inner.get_all_accounts(db_tx)
    }

    fn insert_account(&self, db_tx: &mut Self::DbTx, acc: &Account) -> Result<(), DbError> {
        self.inner.insert_account(db_tx, acc)
    }

    fn update_account(
        &self,
        db_tx: &mut Self::DbTx,
        old_acc: &Account,
        new_acc: &Account,
    ) -> Result<(), DbError> {
        if self.refuse_updates {
            return Err(DbError::ConcurrentModification);
        }
        self.inner.update_account(db_tx, old_acc, new_acc)
    }

    fn is_operation_processed(&self, db_tx: &mut Self::DbTx, op_hash: u64) -> Result<bool, DbError> {
        self.inner.is_operation_processed(db_tx, op_hash)
    }

    fn insert_operation(&self, db_tx: &mut Self::DbTx, op: u64) -> Result<(), DbError> {
        self.inner.insert_operation(db_tx, op)
    }

    fn start_db_tx(&mut self) -> Result<Self::DbTx, DbError> {
        self.inner.start_db_tx()
    }

    fn commit_db_tx(&mut self, db_tx: Self::DbTx) -> Result<(), DbError> {
        if self.refuse_commit {
            return Err(DbError::DatabaseError("no room".to_string()));
        }
        self.inner.commit_db_tx(db_tx)
    }
}

fn funded_store() -> FaultyStore {
    let mut store = FaultyStore::new();
    let mut db_tx = store.start_db_tx().unwrap();
    let account = Account::from_parts(1, Decimal4::from(100), Decimal4::zero(), false, 1);
    store.insert_account(&mut db_tx, &account).unwrap();
    store
        .insert_tx(
            &mut db_tx,
            &Transaction::new(1, 1, TransactionType::Deposit, Decimal4::from(100)),
        )
        .unwrap();
    store.commit_db_tx(db_tx).unwrap();
    store
}

#[test]
fn refused_update_is_a_concurrent_operation() {
    let mut store = funded_store();
    store.refuse_updates = true;
    let mut engine = Engine::new(store);
    assert_eq!(
        engine.deposit(1, 2, Decimal4::from(5)),
        Err(EngineError::ConcurrentOperationDetected)
    );
    assert_eq!(
        engine.withdraw(1, 3, Decimal4::from(5)),
        Err(EngineError::ConcurrentOperationDetected)
    );
    assert_eq!(engine.dispute(1, 1), Err(EngineError::ConcurrentOperationDetected));
    let account = engine.get_account(1).unwrap().unwrap();
    assert_eq!(account.available(), Decimal4::from(100));
    assert_eq!(account.held(), Decimal4::zero());
    assert_eq!(account.version(), 1);
}

#[test]
fn refused_insert_is_a_concurrent_operation() {
    let mut store = funded_store();
    store.refuse_inserts = true;
    let mut engine = Engine::new(store);
    assert_eq!(
        engine.deposit(1, 2, Decimal4::from(5)),
        Err(EngineError::ConcurrentOperationDetected)
    );
    assert_eq!(
        engine.deposit(2, 2, Decimal4::from(5)),
        Err(EngineError::ConcurrentOperationDetected)
    );
    assert!(engine.get_account(2).unwrap().is_none());
    assert_eq!(
        engine.get_account(1).unwrap().unwrap().available(),
        Decimal4::from(100)
    );
}

#[test]
fn refused_commit_leaves_the_ledger_as_it_was() {
    let mut store = funded_store();
    store.refuse_commit = true;
    let mut engine = Engine::new(store);
    assert_eq!(
        engine.deposit(1, 2, Decimal4::from(5)),
        Err(EngineError::DatabaseError("no room".to_string()))
    );
    assert_eq!(
        engine.dispute(1, 1),
        Err(EngineError::DatabaseError("no room".to_string()))
    );
    assert!(matches!(
        engine.get_account(1),
        Err(EngineError::DatabaseError(detail)) if detail == "no room"
    ));
    assert!(matches!(
        engine.get_all_accounts(),
        Err(EngineError::DatabaseError(detail)) if detail == "no room"
    ));
}

#[test]
fn rejections_of_account_and_transaction_keep_their_meaning() {
    assert_eq!(
        EngineError::from(AccountUpdateError::AccountLocked),
        EngineError::AccountLocked
    );
    assert_eq!(
        EngineError::from(AccountUpdateError::InsufficientFunds),
        EngineError::InsufficientFunds
    );
    assert_eq!(
        EngineError::from(AccountUpdateError::AmountIsNotPositive),
        EngineError::AmountIsNotPositive
    );
    assert_eq!(
        EngineError::from(TxUpdateError::InvalidTxType),
        EngineError::InvalidTxType
    );
    assert_eq!(
        EngineError::from(TxUpdateError::ForbiddenTxStateTransition {
            from: TransactionState::Resolved,
            to: TransactionState::Chargeback
        }),
        EngineError::ForbiddenTxStateTransition {
            from: TransactionState::Resolved,
            to: TransactionState::Chargeback
        }
    );
    assert_eq!(
        EngineError::from(DbError::DatabaseError("x".to_string())),
        EngineError::DatabaseError("x".to_string())
    );
}
