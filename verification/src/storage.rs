//! What the engine asks of a store, and the store kept in memory by `echodb`.

use crate::account::Account;
use crate::account::AccountView;
use crate::ledger::Ledger;
use crate::record::decode_account;
use crate::record::decode_transaction;
use crate::record::encode_account;
use crate::record::encode_transaction;
use crate::record::account_bytes;
use crate::record::stored_account;
use crate::record::stored_transaction;
use crate::record::transaction_bytes;
use crate::transaction::Transaction;
use crate::transaction::TransactionView;
use std::future::Future;
use std::task::Context;
use std::task::Poll;
use std::task::Waker;
use vstd::prelude::*;

verus! {

/// Why a store refused a call.
#[derive(Debug)]
pub enum DbError {
    /// An insert found the entity in place.
    EntityAlreadyExists,
    /// An update found another value than the one it expected.
    ConcurrentModification,
    /// The store itself failed.
    DatabaseError(String),
}

/// Whether `found` is what `ledger` holds under the transaction id `tx_id`.
pub open spec fn is_transaction_of(ledger: Ledger, tx_id: u32, found: Option<Transaction>) -> bool {
    match found {
        Some(transaction) => ledger.transaction(tx_id) == Some(transaction@) && transaction@.id
            == tx_id,
        None => ledger.transaction(tx_id) is None,
    }
}

/// Whether `found` is what `ledger` holds under the client id `acc_id`.
pub open spec fn is_account_of(ledger: Ledger, acc_id: u16, found: Option<Account>) -> bool {
    match found {
        Some(account) => ledger.account(acc_id) == Some(account@) && account@.id == acc_id,
        None => ledger.account(acc_id) is None,
    }
}

/// Whether `listed` holds every account of `ledger` once, and nothing else.
pub open spec fn lists_accounts(ledger: Ledger, listed: Seq<Account>) -> bool {
    &&& forall|i: int|
        0 <= i < listed.len() ==> ledger.account((#[trigger] listed[i])@.id) == Some(listed[i]@)
    &&& forall|i: int, j: int|
        0 <= i < j < listed.len() ==> (#[trigger] listed[i])@.id != (#[trigger] listed[j])@.id
    &&& forall|id: u16| #[trigger]
        ledger.accounts.contains_key(id) ==> exists|i: int|
            0 <= i < listed.len() && (#[trigger] listed[i])@.id == id
}

/// A transactional store of accounts, transactions and operation
/// fingerprints.
///
/// Reads and writes go to a unit of work, which sees its own writes; a commit
/// makes them the state of the store at once, and a unit of work that is
/// dropped leaves no trace. No call promises to succeed: a store may fail at
/// any time. What a call promises is what its success means, and that its
/// failure changes nothing.
pub trait Storage {
    /// A unit of work.
    type DbTx;

    /// The committed state.
    spec fn committed(&self) -> Ledger;

    /// The state that a unit of work sees.
    spec fn pending(&self, db_tx: &Self::DbTx) -> Ledger;

    /// Whether the unit of work was started by this store and not committed.
    spec fn active(&self, db_tx: &Self::DbTx) -> bool;

    /// The committed state files every record under its own id.
    proof fn lemma_committed_is_consistent(&self)
        ensures
            self.committed().consistent(),
    ;

    /// The transaction with the id `tx_id`, if there is one.
    fn get_tx(&self, db_tx: &mut Self::DbTx, tx_id: u32) -> (r: Result<
        Option<Transaction>,
        DbError,
    >)
        ensures
            self.pending(final(db_tx)) == self.pending(old(db_tx)),
            self.active(final(db_tx)) == self.active(old(db_tx)),
            r matches Ok(found) ==> is_transaction_of(self.pending(old(db_tx)), tx_id, found),
    ;

    /// Files a transaction whose id is new.
    fn insert_tx(&self, db_tx: &mut Self::DbTx, tx: &Transaction) -> (r: Result<(), DbError>)
        ensures
            self.active(final(db_tx)) == self.active(old(db_tx)),
            match r {
                Ok(()) => self.pending(old(db_tx)).transaction(tx@.id) is None && self.pending(
                    final(db_tx),
                ) == self.pending(old(db_tx)).with_transaction(tx@),
                Err(_) => self.pending(final(db_tx)) == self.pending(old(db_tx)),
            },
    ;

    /// Replaces the transaction `old_tx` by `new_tx`, which has the same id,
    /// where the store still holds `old_tx`.
    fn update_tx(&self, db_tx: &mut Self::DbTx, old_tx: &Transaction, new_tx: &Transaction) -> (r:
        Result<(), DbError>)
        requires
            old_tx@.id == new_tx@.id,
        ensures
            self.active(final(db_tx)) == self.active(old(db_tx)),
            match r {
                Ok(()) => self.pending(old(db_tx)).transaction(old_tx@.id) == Some(old_tx@)
                    && self.pending(final(db_tx)) == self.pending(old(db_tx)).with_transaction(
                    new_tx@,
                ),
                Err(_) => self.pending(final(db_tx)) == self.pending(old(db_tx)),
            },
    ;

    /// The account of the client `acc_id`, if there is one.
    fn get_account(&self, db_tx: &mut Self::DbTx, acc_id: u16) -> (r: Result<
        Option<Account>,
        DbError,
    >)
        ensures
            self.pending(final(db_tx)) == self.pending(old(db_tx)),
            self.active(final(db_tx)) == self.active(old(db_tx)),
            r matches Ok(found) ==> is_account_of(self.pending(old(db_tx)), acc_id, found),
    ;

    /// Every account, each once, in no particular order.
    fn get_all_accounts(&self, db_tx: &mut Self::DbTx) -> (r: Result<Vec<Account>, DbError>)
        ensures
            self.pending(final(db_tx)) == self.pending(old(db_tx)),
            self.active(final(db_tx)) == self.active(old(db_tx)),
            r matches Ok(listed) ==> lists_accounts(self.pending(old(db_tx)), listed@),
    ;

    /// Files the account of a client who has none.
    fn insert_account(&self, db_tx: &mut Self::DbTx, acc: &Account) -> (r: Result<(), DbError>)
        ensures
            self.active(final(db_tx)) == self.active(old(db_tx)),
            match r {
                Ok(()) => self.pending(old(db_tx)).account(acc@.id) is None && self.pending(
                    final(db_tx),
                ) == self.pending(old(db_tx)).with_account(acc@),
                Err(_) => self.pending(final(db_tx)) == self.pending(old(db_tx)),
            },
    ;

    /// Replaces the account `old_acc` by `new_acc`, which is of the same
    /// client, where the store still holds `old_acc`.
    fn update_account(&self, db_tx: &mut Self::DbTx, old_acc: &Account, new_acc: &Account) -> (r:
        Result<(), DbError>)
        requires
            old_acc@.id == new_acc@.id,
        ensures
            self.active(final(db_tx)) == self.active(old(db_tx)),
            match r {
                Ok(()) => self.pending(old(db_tx)).account(old_acc@.id) == Some(old_acc@)
                    && self.pending(final(db_tx)) == self.pending(old(db_tx)).with_account(
                    new_acc@,
                ),
                Err(_) => self.pending(final(db_tx)) == self.pending(old(db_tx)),
            },
    ;

    /// Whether the fingerprint of an operation is on record.
    fn is_operation_processed(&self, db_tx: &mut Self::DbTx, op_hash: u64) -> (r: Result<
        bool,
        DbError,
    >)
        ensures
            self.pending(final(db_tx)) == self.pending(old(db_tx)),
            self.active(final(db_tx)) == self.active(old(db_tx)),
            r matches Ok(processed) ==> processed == self.pending(old(db_tx)).operations.contains(
                op_hash,
            ),
    ;

    /// Puts a fingerprint on record that was not there.
    fn insert_operation(&self, db_tx: &mut Self::DbTx, op: u64) -> (r: Result<(), DbError>)
        ensures
            self.active(final(db_tx)) == self.active(old(db_tx)),
            match r {
                Ok(()) => !self.pending(old(db_tx)).operations.contains(op) && self.pending(
                    final(db_tx),
                ) == self.pending(old(db_tx)).with_operation(op),
                Err(_) => self.pending(final(db_tx)) == self.pending(old(db_tx)),
            },
    ;

    /// Starts a unit of work, which sees the committed state.
    fn start_db_tx(&mut self) -> (r: Result<Self::DbTx, DbError>)
        ensures
            final(self).committed() == old(self).committed(),
            r matches Ok(db_tx) ==> final(self).active(&db_tx) && final(self).pending(&db_tx)
                == old(self).committed(),
    ;

    /// Makes what a unit of work of this store sees the committed state.
    fn commit_db_tx(&mut self, db_tx: Self::DbTx) -> (r: Result<(), DbError>)
        requires
            old(self).active(&db_tx),
        ensures
            match r {
                Ok(()) => final(self).committed() == old(self).pending(&db_tx),
                Err(_) => final(self).committed() == old(self).committed(),
            },
    ;
}

/// A key of the store: a keyspace and the id of a record in it.
pub type Key = (u8, u64);

/// The keyspace of the accounts.
pub const ACCOUNTS: u8 = 0;

/// The keyspace of the transactions.
pub const TRANSACTIONS: u8 = 1;

/// The keyspace of the operation fingerprints.
pub const OPERATIONS: u8 = 2;

/// The database of `echodb`, whose inside stays hidden: what it holds is
/// told by [`db_entries`].
#[verifier::external_type_specification]
#[verifier::external_body]
#[verifier::reject_recursive_types(K)]
#[verifier::reject_recursive_types(V)]
pub struct ExDb<K, V>(echodb::Db<K, V>);

/// The transaction of `echodb`, whose inside stays hidden: what it sees is
/// told by [`tx_entries`].
#[verifier::external_type_specification]
#[verifier::external_body]
#[verifier::reject_recursive_types(K)]
#[verifier::reject_recursive_types(V)]
pub struct ExTx<K, V>(echodb::Tx<K, V>);

/// The committed entries of a database: the map behind its shared pointer,
/// as it is loaded now.
///
/// A value of a database stands for these entries only as this module uses
/// it: the database is not cloned and sits in a private field of
/// [`EchoDbStorage`], every commit goes through `db_commit` with the
/// database borrowed mutably, and the one write lock admits one open
/// transaction at a time.
pub uninterp spec fn db_entries(db: echodb::Db<Key, Vec<u8>>) -> Map<Key, Seq<u8>>;

/// The store that a database keeps its entries in. Two values of a database
/// name the same store where one came from the other by a commit.
pub uninterp spec fn db_store(db: echodb::Db<Key, Vec<u8>>) -> int;

/// The entries that a transaction sees: those of its database when it
/// began, and its own writes.
pub uninterp spec fn tx_entries(tx: echodb::Tx<Key, Vec<u8>>) -> Map<Key, Seq<u8>>;

/// The store that a transaction commits to.
pub uninterp spec fn tx_store(tx: echodb::Tx<Key, Vec<u8>>) -> int;

/// Whether a transaction is open and takes writes: it was begun for writing
/// and is neither committed nor cancelled.
pub uninterp spec fn tx_writing(tx: echodb::Tx<Key, Vec<u8>>) -> bool;

/// The entries of a new database: none.
pub open spec fn empty_entries() -> Map<Key, Seq<u8>> {
    Map::empty()
}

/// The order of the keys: by keyspace, then by id.
pub open spec fn key_lt(a: Key, b: Key) -> bool {
    a.0 < b.0 || (a.0 == b.0 && a.1 < b.1)
}

/// Opens an empty database with `echodb::new`.
#[verifier::external_body]
fn db_new() -> (r: echodb::Db<Key, Vec<u8>>)
    ensures
        db_entries(r) == empty_entries(),
{
    echodb::new()
}

/// Begins a writable transaction with `Db::begin`. The call is polled once,
/// exempt from the task budget of `tokio`, and hands back the transaction if
/// one came: none comes while the write lock of the database is taken.
///
/// Trusted: a transaction that came is open for writing, sees the committed
/// entries and commits to the store of this database.
#[verifier::external_body]
fn db_begin(db: &echodb::Db<Key, Vec<u8>>) -> (r: Option<echodb::Tx<Key, Vec<u8>>>)
    ensures
        r matches Some(tx) ==> tx_entries(tx) == db_entries(*db) && tx_store(tx) == db_store(*db),
        r matches Some(tx) ==> tx_writing(tx),
{
    let mut opening = Box::pin(tokio::task::coop::unconstrained(db.begin(true)));
    match opening.as_mut().poll(&mut Context::from_waker(Waker::noop())) {
        Poll::Ready(Ok(tx)) => Some(tx),
        _ => None,
    }
}

/// Commits a transaction with `Tx::commit`.
///
/// Trusted: it succeeds where, and only where, the transaction is open for
/// writing. On success the store that the transaction commits to, which is
/// that of `db`, holds the entries that the transaction saw; on failure it
/// holds what it held, and the error is a `DatabaseError`. It does not
/// panic.
#[verifier::external_body]
fn db_commit(db: &mut echodb::Db<Key, Vec<u8>>, tx: echodb::Tx<Key, Vec<u8>>) -> (r:
    Result<(), DbError>)
    requires
        tx_store(tx) == db_store(*old(db)),
    ensures
        db_store(*final(db)) == db_store(*old(db)),
        r is Ok <==> tx_writing(tx),
        match r {
            Ok(()) => db_entries(*final(db)) == tx_entries(tx),
            Err(e) => db_entries(*final(db)) == db_entries(*old(db)) && e is DatabaseError,
        },
    no_unwind
{
    let mut tx = tx;
    match tx.commit() {
        Ok(done) => Ok(done),
        Err(echodb::err::Error::KeyAlreadyExists) => Err(DbError::EntityAlreadyExists),
        Err(echodb::err::Error::ValNotExpectedValue) => Err(DbError::ConcurrentModification),
        Err(other) => Err(DbError::DatabaseError(other.to_string())),
    }
}

/// Looks a key up with `Tx::get`.
///
/// Trusted: it succeeds on a transaction that is open for writing. On
/// success the result is the value under the key, or `None` where there is
/// no such key. A failure is a `DatabaseError`.
#[verifier::external_body]
fn tx_get(tx: &echodb::Tx<Key, Vec<u8>>, key: Key) -> (r: Result<Option<Vec<u8>>, DbError>)
    ensures
        tx_writing(*tx) ==> r is Ok,
        r matches Err(e) ==> e is DatabaseError,
        r matches Ok(found) ==> match found {
            Some(value) => tx_entries(*tx).contains_key(key) && tx_entries(*tx)[key] == value@,
            None => !tx_entries(*tx).contains_key(key),
        },
{
    match tx.get(key) {
        Ok(done) => Ok(done),
        Err(echodb::err::Error::KeyAlreadyExists) => Err(DbError::EntityAlreadyExists),
        Err(echodb::err::Error::ValNotExpectedValue) => Err(DbError::ConcurrentModification),
        Err(other) => Err(DbError::DatabaseError(other.to_string())),
    }
}

/// Asks for a key with `Tx::exi`.
///
/// Trusted: it succeeds on a transaction that is open for writing. On
/// success the result tells whether there is such a key. A failure is a
/// `DatabaseError`.
#[verifier::external_body]
fn tx_exi(tx: &echodb::Tx<Key, Vec<u8>>, key: Key) -> (r: Result<bool, DbError>)
    ensures
        tx_writing(*tx) ==> r is Ok,
        r matches Err(e) ==> e is DatabaseError,
        r matches Ok(exists) ==> exists == tx_entries(*tx).contains_key(key),
{
    match tx.exi(key) {
        Ok(done) => Ok(done),
        Err(echodb::err::Error::KeyAlreadyExists) => Err(DbError::EntityAlreadyExists),
        Err(echodb::err::Error::ValNotExpectedValue) => Err(DbError::ConcurrentModification),
        Err(other) => Err(DbError::DatabaseError(other.to_string())),
    }
}

/// Inserts a new key with `Tx::put`.
///
/// Trusted: it succeeds where, and only where, the transaction is open for
/// writing and the key was not there, and then adds the entry; on failure
/// the entries are unchanged. It fails with `EntityAlreadyExists` where the
/// transaction is open for writing, else with a `DatabaseError`. The
/// transaction stays as open as it was.
#[verifier::external_body]
fn tx_put(tx: &mut echodb::Tx<Key, Vec<u8>>, key: Key, value: Vec<u8>) -> (r: Result<
    (),
    DbError,
>)
    ensures
        r matches Err(e) ==> if tx_writing(*old(tx)) {
            e is EntityAlreadyExists
        } else {
            e is DatabaseError
        },
        tx_store(*final(tx)) == tx_store(*old(tx)),
        tx_writing(*final(tx)) == tx_writing(*old(tx)),
        r is Ok <==> tx_writing(*old(tx)) && !tx_entries(*old(tx)).contains_key(key),
        match r {
            Ok(()) => !tx_entries(*old(tx)).contains_key(key) && tx_entries(*final(tx))
                == tx_entries(*old(tx)).insert(key, value@),
            Err(_) => tx_entries(*final(tx)) == tx_entries(*old(tx)),
        },
{
    match tx.put(key, value) {
        Ok(done) => Ok(done),
        Err(echodb::err::Error::KeyAlreadyExists) => Err(DbError::EntityAlreadyExists),
        Err(echodb::err::Error::ValNotExpectedValue) => Err(DbError::ConcurrentModification),
        Err(other) => Err(DbError::DatabaseError(other.to_string())),
    }
}

/// Replaces the value under a key with `Tx::putc`, which checks the value in
/// place against `expected` first.
///
/// Trusted: it succeeds where, and only where, the transaction is open for
/// writing and the value under the key was `expected`, and then puts `value`
/// in its place; on failure the entries are unchanged. It fails with
/// `ConcurrentModification` where the transaction is open for writing, else
/// with a `DatabaseError`. The transaction stays as open as it was.
#[verifier::external_body]
fn tx_putc(
    tx: &mut echodb::Tx<Key, Vec<u8>>,
    key: Key,
    value: Vec<u8>,
    expected: Vec<u8>,
) -> (r: Result<(), DbError>)
    ensures
        r matches Err(e) ==> if tx_writing(*old(tx)) {
            e is ConcurrentModification
        } else {
            e is DatabaseError
        },
        tx_store(*final(tx)) == tx_store(*old(tx)),
        tx_writing(*final(tx)) == tx_writing(*old(tx)),
        r is Ok <==> tx_writing(*old(tx)) && tx_entries(*old(tx)).contains_key(key)
            && tx_entries(*old(tx))[key] == expected@,
        match r {
            Ok(()) => tx_entries(*old(tx)).contains_key(key) && tx_entries(*old(tx))[key]
                == expected@ && tx_entries(*final(tx)) == tx_entries(*old(tx)).insert(
                key,
                value@,
            ),
            Err(_) => tx_entries(*final(tx)) == tx_entries(*old(tx)),
        },
{
    match tx.putc(key, value, Some(expected)) {
        Ok(done) => Ok(done),
        Err(echodb::err::Error::KeyAlreadyExists) => Err(DbError::EntityAlreadyExists),
        Err(echodb::err::Error::ValNotExpectedValue) => Err(DbError::ConcurrentModification),
        Err(other) => Err(DbError::DatabaseError(other.to_string())),
    }
}

/// Reads the entries with a key from `from` up to, not including, `to`
/// with `Tx::scan`, at most `limit` of them.
///
/// Trusted: it succeeds on a transaction that is open for writing. On
/// success every pair is an entry in that range, the keys rise strictly, and
/// where fewer than `limit` pairs came back, every entry in the range is
/// among them. A failure is a `DatabaseError`.
#[verifier::external_body]
fn tx_scan(tx: &echodb::Tx<Key, Vec<u8>>, from: Key, to: Key, limit: u32) -> (r:
    Result<Vec<(Key, Vec<u8>)>, DbError>)
    requires
        key_lt(from, to),
    ensures
        tx_writing(*tx) ==> r is Ok,
        r matches Err(e) ==> e is DatabaseError,
        r matches Ok(found) ==> {
            &&& found.len() <= limit
            &&& forall|i: int|
                0 <= i < found.len() ==> {
                    &&& !key_lt((#[trigger] found[i]).0, from)
                    &&& key_lt(found[i].0, to)
                    &&& tx_entries(*tx).contains_key(found[i].0)
                    &&& tx_entries(*tx)[found[i].0] == found[i].1@
                }
            &&& forall|i: int, j: int|
                0 <= i < j < found.len() ==> key_lt(
                    (#[trigger] found[i]).0,
                    (#[trigger] found[j]).0,
                )
            &&& found.len() < limit ==> forall|key: Key|
                #[trigger] tx_entries(*tx).contains_key(key) && !key_lt(key, from) && key_lt(
                    key,
                    to,
                ) ==> exists|i: int| 0 <= i < found.len() && (#[trigger] found[i]).0 == key
        },
{
    match tx.scan(from..to, limit) {
        Ok(done) => Ok(done),
        Err(echodb::err::Error::KeyAlreadyExists) => Err(DbError::EntityAlreadyExists),
        Err(echodb::err::Error::ValNotExpectedValue) => Err(DbError::ConcurrentModification),
        Err(other) => Err(DbError::DatabaseError(other.to_string())),
    }
}

/// The account of client `id` among the entries, if they hold one.
pub open spec fn account_at(entries: Map<Key, Seq<u8>>, id: u16) -> Option<AccountView> {
    if entries.contains_key((ACCOUNTS, id as u64)) {
        stored_account(id, entries[(ACCOUNTS, id as u64)])
    } else {
        None
    }
}

/// The transaction `id` among the entries, if they hold one.
pub open spec fn transaction_at(entries: Map<Key, Seq<u8>>, id: u32) -> Option<TransactionView> {
    if entries.contains_key((TRANSACTIONS, id as u64)) {
        stored_transaction(id, entries[(TRANSACTIONS, id as u64)])
    } else {
        None
    }
}

/// The ledger that the entries of a database stand for. An entry that reads
/// back as no record stands for none.
pub open spec fn ledger_of(entries: Map<Key, Seq<u8>>) -> Ledger {
    Ledger {
        accounts: Map::new(
            |id: u16| account_at(entries, id) is Some,
            |id: u16| account_at(entries, id)->Some_0,
        ),
        transactions: Map::new(
            |id: u32| transaction_at(entries, id) is Some,
            |id: u32| transaction_at(entries, id)->Some_0,
        ),
        operations: Set::new(|fingerprint: u64| entries.contains_key((OPERATIONS, fingerprint))),
    }
}

/// The ledger of any entries files every record under its own id.
pub proof fn lemma_ledger_of_is_consistent(entries: Map<Key, Seq<u8>>)
    ensures
        ledger_of(entries).consistent(),
{
}

/// The ledger of no entries is the empty one.
pub proof fn lemma_ledger_of_nothing()
    ensures
        ledger_of(empty_entries()) == Ledger::empty(),
{
    let ledger = ledger_of(empty_entries());
    assert(ledger.accounts =~= Ledger::empty().accounts);
    assert(ledger.transactions =~= Ledger::empty().transactions);
    assert(ledger.operations =~= Ledger::empty().operations);
}

/// Bytes that read back as an account, filed under the account's key, make
/// the ledger hold that account and change nothing else.
pub proof fn lemma_ledger_with_account(
    entries: Map<Key, Seq<u8>>,
    account: AccountView,
    bytes: Seq<u8>,
)
    requires
        stored_account(account.id, bytes) == Some(account),
    ensures
        ledger_of(entries.insert((ACCOUNTS, account.id as u64), bytes)) == ledger_of(
            entries,
        ).with_account(account),
{
    let after = ledger_of(entries.insert((ACCOUNTS, account.id as u64), bytes));
    let expected = ledger_of(entries).with_account(account);
    assert forall|id: u16| #[trigger] after.accounts.contains_key(id) implies after.accounts[id]
        == expected.accounts[id] by {
        assert(id != account.id ==> (ACCOUNTS, id as u64) != (ACCOUNTS, account.id as u64));
    }
    assert(after.accounts =~= expected.accounts);
    assert(after.transactions =~= expected.transactions);
    assert(after.operations =~= expected.operations);
}

/// Bytes that read back as a transaction, filed under the transaction's
/// key, make the ledger hold that transaction and change nothing else.
pub proof fn lemma_ledger_with_transaction(
    entries: Map<Key, Seq<u8>>,
    transaction: TransactionView,
    bytes: Seq<u8>,
)
    requires
        stored_transaction(transaction.id, bytes) == Some(transaction),
    ensures
        ledger_of(entries.insert((TRANSACTIONS, transaction.id as u64), bytes)) == ledger_of(
            entries,
        ).with_transaction(transaction),
{
    let after = ledger_of(entries.insert((TRANSACTIONS, transaction.id as u64), bytes));
    let expected = ledger_of(entries).with_transaction(transaction);
    assert forall|id: u32| #[trigger]
        after.transactions.contains_key(id) implies after.transactions[id]
        == expected.transactions[id] by {
        assert(id != transaction.id ==> (TRANSACTIONS, id as u64) != (
            TRANSACTIONS,
            transaction.id as u64,
        ));
    }
    assert(after.accounts =~= expected.accounts);
    assert(after.transactions =~= expected.transactions);
    assert(after.operations =~= expected.operations);
}

/// Anything filed under the key of a fingerprint puts the fingerprint on
/// record and changes nothing else.
pub proof fn lemma_ledger_with_operation(
    entries: Map<Key, Seq<u8>>,
    fingerprint: u64,
    bytes: Seq<u8>,
)
    ensures
        ledger_of(entries.insert((OPERATIONS, fingerprint), bytes)) == ledger_of(
            entries,
        ).with_operation(fingerprint),
{
    let after = ledger_of(entries.insert((OPERATIONS, fingerprint), bytes));
    let expected = ledger_of(entries).with_operation(fingerprint);
    assert(after.accounts =~= expected.accounts);
    assert(after.transactions =~= expected.transactions);
    assert(after.operations =~= expected.operations);
}

/// Whether the error is a failure of the store with the given description.
pub open spec fn fails_with(e: DbError, detail: Seq<char>) -> bool {
    e matches DbError::DatabaseError(said) && said@ == detail
}

/// Whether `bytes` are what the store writes under `key`: under the key of
/// an account or a transaction, the bytes of a record that reads back, as
/// they are written for it; under another key, anything.
pub open spec fn kept_as_written(key: Key, bytes: Seq<u8>) -> bool {
    if key.0 == ACCOUNTS {
        key.1 <= u16::MAX && (stored_account(key.1 as u16, bytes) matches Some(account)
            && account_bytes(account) == bytes)
    } else if key.0 == TRANSACTIONS {
        key.1 <= u32::MAX && (stored_transaction(key.1 as u32, bytes) matches Some(transaction)
            && transaction_bytes(transaction) == bytes)
    } else {
        true
    }
}

/// Whether every entry is as the store writes it.
pub open spec fn well_kept(entries: Map<Key, Seq<u8>>) -> bool {
    forall|key: Key| #[trigger] entries.contains_key(key) ==> kept_as_written(key, entries[key])
}

/// An entry as the store writes it, put where nothing was or where an entry
/// as the store writes it was, leaves the entries as well kept as they were.
pub proof fn lemma_well_kept_with_entry(entries: Map<Key, Seq<u8>>, key: Key, bytes: Seq<u8>)
    requires
        kept_as_written(key, bytes),
        entries.contains_key(key) ==> kept_as_written(key, entries[key]),
    ensures
        well_kept(entries.insert(key, bytes)) == well_kept(entries),
{
    let after = entries.insert(key, bytes);
    if well_kept(entries) {
        assert forall|other: Key| #[trigger] after.contains_key(other) implies kept_as_written(
            other,
            after[other],
        ) by {
            if other != key {
                assert(entries.contains_key(other));
            }
        }
    }
    if well_kept(after) {
        assert forall|other: Key| #[trigger] entries.contains_key(other) implies kept_as_written(
            other,
            entries[other],
        ) by {
            if other != key {
                assert(after.contains_key(other));
            }
        }
    }
}

/// One more than there are client ids: the most entries that a listing of
/// the accounts asks for.
pub const ACCOUNTS_LIMIT: u32 = 65_537;

/// The failure of a store that could not write a record: a `DatabaseError`
/// that says "Can not encode data".
fn cannot_encode() -> (r: DbError)
    ensures
        fails_with(r, "Can not encode data"@),
{
    DbError::DatabaseError("Can not encode data".to_owned())
}

/// The failure of a store that cannot start a unit of work: a
/// `DatabaseError` that says "Can not open transaction".
fn cannot_open() -> (r: DbError)
    ensures
        fails_with(r, "Can not open transaction"@),
{
    DbError::DatabaseError("Can not open transaction".to_owned())
}

/// The failure of a store that holds what is no record: a `DatabaseError`
/// that says "Can not decode data".
fn cannot_decode() -> (r: DbError)
    ensures
        fails_with(r, "Can not decode data"@),
{
    DbError::DatabaseError("Can not decode data".to_owned())
}

/// A store in memory, kept by `echodb`.
///
/// An account is filed under its client id, a transaction under its id and a
/// fingerprint under itself, each in a keyspace of its own. The store holds
/// nothing but what it wrote itself, so in a unit of work of its own every
/// read succeeds, and a write fails only where the trait lets it fail or the
/// bytes of the record could not be written.
pub struct EchoDbStorage {
    db: echodb::Db<Key, Vec<u8>>,
}

impl EchoDbStorage {
    /// Every committed entry is as the store writes it.
    #[verifier::type_invariant]
    spec fn keeps_well(&self) -> bool {
        well_kept(db_entries(self.db))
    }

    /// An empty store.
    pub fn new() -> (r: Self)
        ensures
            r.committed() == Ledger::empty(),
    {
        proof {
            lemma_ledger_of_nothing();
        }
        Self { db: db_new() }
    }
}

impl Default for EchoDbStorage {
    /// An empty store.
    fn default() -> (r: Self)
        ensures
            r.committed() == Ledger::empty(),
    {
        EchoDbStorage::new()
    }
}

impl Storage for EchoDbStorage {
    type DbTx = echodb::Tx<Key, Vec<u8>>;

    closed spec fn committed(&self) -> Ledger {
        ledger_of(db_entries(self.db))
    }

    closed spec fn pending(&self, db_tx: &Self::DbTx) -> Ledger {
        ledger_of(tx_entries(*db_tx))
    }

    closed spec fn active(&self, db_tx: &Self::DbTx) -> bool {
        tx_store(*db_tx) == db_store(self.db) && tx_writing(*db_tx) && well_kept(
            tx_entries(*db_tx),
        )
    }

    proof fn lemma_committed_is_consistent(&self) {
        lemma_ledger_of_is_consistent(db_entries(self.db));
    }

    /// In an active unit of work this succeeds.
    fn get_tx(&self, db_tx: &mut Self::DbTx, tx_id: u32) -> (r: Result<
        Option<Transaction>,
        DbError,
    >)
        ensures
            self.active(old(db_tx)) ==> r is Ok,
    {
        let found = match tx_get(db_tx, (TRANSACTIONS, tx_id as u64)) {
            Ok(found) => found,
            Err(e) => {
                return Err(e);
            },
        };
        match found {
            Some(data) => match decode_transaction(tx_id, &data) {
                Some(transaction) => Ok(Some(transaction)),
                None => Err(cannot_decode()),
            },
            None => Ok(None),
        }
    }

    /// In an active unit of work the transaction is filed where the store
    /// holds none with its id, and the call fails with `EntityAlreadyExists`
    /// where it holds one, unless the bytes could not be written: then it
    /// fails with "Can not encode data".
    fn insert_tx(&self, db_tx: &mut Self::DbTx, tx: &Transaction) -> (r: Result<(), DbError>)
        ensures
            self.active(old(db_tx)) ==> match r {
                Ok(()) => self.pending(old(db_tx)).transaction(tx@.id) is None,
                Err(e) => fails_with(e, "Can not encode data"@) || (self.pending(
                    old(db_tx),
                ).transaction(tx@.id) is Some && e is EntityAlreadyExists),
            },
    {
        let data = match encode_transaction(tx) {
            Some(data) => data,
            None => {
                return Err(cannot_encode());
            },
        };
        proof {
            lemma_ledger_with_transaction(tx_entries(*db_tx), tx@, data@);
            if !tx_entries(*db_tx).contains_key((TRANSACTIONS, tx@.id as u64)) {
                lemma_well_kept_with_entry(
                    tx_entries(*db_tx),
                    (TRANSACTIONS, tx@.id as u64),
                    data@,
                );
            }
        }
        match tx_put(db_tx, (TRANSACTIONS, tx.id() as u64), data) {
            Ok(()) => Ok(()),
            Err(e) => Err(e),
        }
    }

    /// In an active unit of work `new_tx` takes the place of `old_tx` where
    /// the store holds `old_tx`, and the call fails with
    /// `ConcurrentModification` where it does not, unless the bytes could
    /// not be written: then it fails with "Can not encode data".
    fn update_tx(&self, db_tx: &mut Self::DbTx, old_tx: &Transaction, new_tx: &Transaction) -> (r:
        Result<(), DbError>)
        ensures
            self.active(old(db_tx)) ==> match r {
                Ok(()) => self.pending(old(db_tx)).transaction(old_tx@.id) == Some(old_tx@),
                Err(e) => fails_with(e, "Can not encode data"@) || (self.pending(
                    old(db_tx),
                ).transaction(old_tx@.id) != Some(old_tx@) && e is ConcurrentModification),
            },
    {
        let old_data = match encode_transaction(old_tx) {
            Some(data) => data,
            None => {
                return Err(cannot_encode());
            },
        };
        let new_data = match encode_transaction(new_tx) {
            Some(data) => data,
            None => {
                return Err(cannot_encode());
            },
        };
        proof {
            let key = (TRANSACTIONS, old_tx@.id as u64);
            lemma_ledger_with_transaction(tx_entries(*db_tx), new_tx@, new_data@);
            if tx_entries(*db_tx).contains_key(key) && tx_entries(*db_tx)[key] == old_data@ {
                lemma_well_kept_with_entry(tx_entries(*db_tx), key, new_data@);
            }
        }
        match tx_putc(db_tx, (TRANSACTIONS, old_tx.id() as u64), new_data, old_data) {
            Ok(()) => Ok(()),
            Err(e) => Err(e),
        }
    }

    /// In an active unit of work this succeeds.
    fn get_account(&self, db_tx: &mut Self::DbTx, acc_id: u16) -> (r: Result<
        Option<Account>,
        DbError,
    >)
        ensures
            self.active(old(db_tx)) ==> r is Ok,
    {
        let found = match tx_get(db_tx, (ACCOUNTS, acc_id as u64)) {
            Ok(found) => found,
            Err(e) => {
                return Err(e);
            },
        };
        match found {
            Some(data) => match decode_account(acc_id, &data) {
                Some(account) => Ok(Some(account)),
                None => Err(cannot_decode()),
            },
            None => Ok(None),
        }
    }

    /// In an active unit of work this succeeds.
    fn get_all_accounts(&self, db_tx: &mut Self::DbTx) -> (r: Result<Vec<Account>, DbError>)
        ensures
            self.active(old(db_tx)) ==> r is Ok,
    {
        let found = match tx_scan(db_tx, (ACCOUNTS, 0), (TRANSACTIONS, 0), ACCOUNTS_LIMIT) {
            Ok(found) => found,
            Err(e) => {
                return Err(e);
            },
        };
        let ghost entries = tx_entries(*db_tx);
        let mut listed: Vec<Account> = Vec::new();
        let mut i: usize = 0;
        while i < found.len()
            invariant
                i <= found.len(),
                listed.len() == i,
                self.active(old(db_tx)) ==> well_kept(entries),
                forall|k: int|
                    0 <= k < i ==> (#[trigger] listed[k])@.id as u64 == found[k].0.1
                        && account_at(entries, listed[k]@.id) == Some(listed[k]@),
                forall|k: int| 0 <= k < i ==> k <= (#[trigger] found[k]).0.1 <= u16::MAX,
                forall|k: int|
                    0 <= k < found.len() ==> {
                        &&& (#[trigger] found[k]).0.0 == ACCOUNTS
                        &&& entries.contains_key(found[k].0)
                        &&& entries[found[k].0] == found[k].1@
                    },
                forall|k: int, l: int|
                    0 <= k < l < found.len() ==> (#[trigger] found[k]).0.1 < (
                    #[trigger] found[l]).0.1,
            decreases found.len() - i,
        {
            let id = found[i].0.1;
            proof {
                assert(entries.contains_key(found[i as int].0));
            }
            if id > u16::MAX as u64 {
                return Err(cannot_decode());
            }
            let account = match decode_account(id as u16, &found[i].1) {
                Some(account) => account,
                None => {
                    return Err(cannot_decode());
                },
            };
            proof {
                assert(found[i as int].0 == (ACCOUNTS, id));
                if i > 0 {
                    assert(found[i as int - 1].0.1 < found[i as int].0.1);
                }
            }
            listed.push(account);
            i += 1;
        }
        proof {
            let ledger = ledger_of(entries);
            assert(found.len() < ACCOUNTS_LIMIT) by {
                if found.len() > 0 {
                    assert(found.len() - 1 <= found[found.len() - 1].0.1);
                }
            }
            assert forall|k: int| 0 <= k < listed.len() implies ledger.account(
                (#[trigger] listed[k])@.id,
            ) == Some(listed[k]@) by {}
            assert forall|k: int, l: int| 0 <= k < l < listed.len() implies (#[trigger] listed[k])@.id
                != (#[trigger] listed[l])@.id by {
                assert(found[k].0.1 < found[l].0.1);
            }
            assert forall|id: u16| #[trigger] ledger.accounts.contains_key(id) implies exists|
                k: int,
            |
                0 <= k < listed.len() && (#[trigger] listed[k])@.id == id by {
                assert(entries.contains_key((ACCOUNTS, id as u64)));
                let k = choose|k: int| 0 <= k < found.len() && (#[trigger] found[k]).0 == (
                    ACCOUNTS,
                    id as u64,
                );
                assert(listed[k]@.id == id);
            }
        }
        Ok(listed)
    }

    /// In an active unit of work the account is filed where the store holds
    /// none of its client, and the call fails with `EntityAlreadyExists`
    /// where it holds one, unless the bytes could not be written: then it
    /// fails with "Can not encode data".
    fn insert_account(&self, db_tx: &mut Self::DbTx, acc: &Account) -> (r: Result<(), DbError>)
        ensures
            self.active(old(db_tx)) ==> match r {
                Ok(()) => self.pending(old(db_tx)).account(acc@.id) is None,
                Err(e) => fails_with(e, "Can not encode data"@) || (self.pending(
                    old(db_tx),
                ).account(acc@.id) is Some && e is EntityAlreadyExists),
            },
    {
        let data = match encode_account(acc) {
            Some(data) => data,
            None => {
                return Err(cannot_encode());
            },
        };
        proof {
            lemma_ledger_with_account(tx_entries(*db_tx), acc@, data@);
            if !tx_entries(*db_tx).contains_key((ACCOUNTS, acc@.id as u64)) {
                lemma_well_kept_with_entry(tx_entries(*db_tx), (ACCOUNTS, acc@.id as u64), data@);
            }
        }
        match tx_put(db_tx, (ACCOUNTS, acc.id() as u64), data) {
            Ok(()) => Ok(()),
            Err(e) => Err(e),
        }
    }

    /// In an active unit of work `new_acc` takes the place of `old_acc`
    /// where the store holds `old_acc`, and the call fails with
    /// `ConcurrentModification` where it does not, unless the bytes could
    /// not be written: then it fails with "Can not encode data".
    fn update_account(&self, db_tx: &mut Self::DbTx, old_acc: &Account, new_acc: &Account) -> (r:
        Result<(), DbError>)
        ensures
            self.active(old(db_tx)) ==> match r {
                Ok(()) => self.pending(old(db_tx)).account(old_acc@.id) == Some(old_acc@),
                Err(e) => fails_with(e, "Can not encode data"@) || (self.pending(
                    old(db_tx),
                ).account(old_acc@.id) != Some(old_acc@) && e is ConcurrentModification),
            },
    {
        let old_data = match encode_account(old_acc) {
            Some(data) => data,
            None => {
                return Err(cannot_encode());
            },
        };
        let new_data = match encode_account(new_acc) {
            Some(data) => data,
            None => {
                return Err(cannot_encode());
            },
        };
        proof {
            let key = (ACCOUNTS, old_acc@.id as u64);
            lemma_ledger_with_account(tx_entries(*db_tx), new_acc@, new_data@);
            if tx_entries(*db_tx).contains_key(key) && tx_entries(*db_tx)[key] == old_data@ {
                lemma_well_kept_with_entry(tx_entries(*db_tx), key, new_data@);
            }
        }
        match tx_putc(db_tx, (ACCOUNTS, old_acc.id() as u64), new_data, old_data) {
            Ok(()) => Ok(()),
            Err(e) => Err(e),
        }
    }

    /// In an active unit of work this succeeds.
    fn is_operation_processed(&self, db_tx: &mut Self::DbTx, op_hash: u64) -> (r: Result<
        bool,
        DbError,
    >)
        ensures
            self.active(old(db_tx)) ==> r is Ok,
    {
        match tx_exi(db_tx, (OPERATIONS, op_hash)) {
            Ok(exists) => Ok(exists),
            Err(e) => Err(e),
        }
    }

    /// In an active unit of work the fingerprint is put on record where it
    /// is not there, and the call fails with `EntityAlreadyExists` where it
    /// is.
    fn insert_operation(&self, db_tx: &mut Self::DbTx, op: u64) -> (r: Result<(), DbError>)
        ensures
            self.active(old(db_tx)) ==> match r {
                Ok(()) => !self.pending(old(db_tx)).operations.contains(op),
                Err(e) => self.pending(old(db_tx)).operations.contains(op)
                    && e is EntityAlreadyExists,
            },
    {
        let data: Vec<u8> = vec![0u8];
        proof {
            lemma_ledger_with_operation(tx_entries(*db_tx), op, data@);
            lemma_well_kept_with_entry(tx_entries(*db_tx), (OPERATIONS, op), data@);
        }
        match tx_put(db_tx, (OPERATIONS, op), data) {
            Ok(()) => Ok(()),
            Err(e) => Err(e),
        }
    }

    /// The unit of work is started unless another one of this store is
    /// open; then the call fails with "Can not open transaction".
    fn start_db_tx(&mut self) -> (r: Result<Self::DbTx, DbError>)
        ensures
            r matches Err(e) ==> fails_with(e, "Can not open transaction"@),
    {
        proof {
            use_type_invariant(&*self);
        }
        match db_begin(&self.db) {
            Some(db_tx) => Ok(db_tx),
            None => Err(cannot_open()),
        }
    }

    /// The commit of an active unit of work succeeds.
    fn commit_db_tx(&mut self, db_tx: Self::DbTx) -> (r: Result<(), DbError>)
        ensures
            r is Ok,
    {
        proof {
            use_type_invariant(&*self);
        }
        match db_commit(&mut self.db, db_tx) {
            Ok(()) => Ok(()),
            Err(e) => Err(e),
        }
    }
}

} // verus!
