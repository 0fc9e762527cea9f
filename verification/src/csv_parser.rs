//! The rows of the operation stream and of the account report.
//!
//! A row of the operation stream names a kind, a client, a transaction and,
//! for a deposit or a withdrawal, an amount. Reading the file and writing
//! the report are left to the program around the library.

use crate::account::Account;
use crate::account::AccountView;
use crate::decimal::Decimal4;
use crate::engine::Engine;
use crate::engine::Operation;
use crate::ledger::Ledger;
use crate::storage::Storage;
use vstd::prelude::*;

verus! {

/// Why a row is no operation.
#[derive(Debug, PartialEq)]
pub enum CsvParseError {
    /// The row lacks the field that the error names.
    MissingField(String),
    /// The kind is none of the five.
    InvalidType,
    /// The amount is below zero.
    NegativeAmount,
}

/// A reason why a row is no operation, with the name of a field as text.
pub ghost enum CsvParseErrorView {
    MissingField(Seq<char>),
    InvalidType,
    NegativeAmount,
}

impl View for CsvParseError {
    type V = CsvParseErrorView;

    open spec fn view(&self) -> CsvParseErrorView {
        match self {
            CsvParseError::MissingField(field) => CsvParseErrorView::MissingField(field@),
            CsvParseError::InvalidType => CsvParseErrorView::InvalidType,
            CsvParseError::NegativeAmount => CsvParseErrorView::NegativeAmount,
        }
    }
}

/// The fields of a row of the operation stream.
pub ghost struct CsvOperationView {
    pub op_type: Option<Seq<char>>,
    pub client: Option<u16>,
    pub tx: Option<u32>,
    pub amount: Option<Decimal4>,
}

impl CsvOperationView {
    /// Whether the row names a kind that moves money, which needs an amount.
    pub open spec fn moves_money(self) -> bool {
        self.op_type == Some("deposit"@) || self.op_type == Some("withdrawal"@)
    }

    /// The operation that the row stands for, or the reason why it stands
    /// for none.
    ///
    /// The fields are asked for in the order kind, client, transaction, and
    /// the amount where the kind moves money. An amount below zero is
    /// refused whatever the kind; an amount beside a kind that moves no money
    /// is passed over. The kind is looked at last.
    pub open spec fn operation(self) -> Result<Operation, CsvParseErrorView> {
        if self.op_type is None {
            Err(CsvParseErrorView::MissingField("type"@))
        } else if self.client is None {
            Err(CsvParseErrorView::MissingField("client"@))
        } else if self.tx is None {
            Err(CsvParseErrorView::MissingField("tx"@))
        } else if self.moves_money() && self.amount is None {
            Err(CsvParseErrorView::MissingField("amount"@))
        } else if self.amount is Some && self.amount->Some_0@ < 0 {
            Err(CsvParseErrorView::NegativeAmount)
        } else {
            let kind = self.op_type->Some_0;
            let acc_id = self.client->Some_0;
            let tx_id = self.tx->Some_0;
            if kind == "deposit"@ {
                Ok(Operation::Deposit { acc_id, tx_id, amount: self.amount->Some_0 })
            } else if kind == "withdrawal"@ {
                Ok(Operation::Withdraw { acc_id, tx_id, amount: self.amount->Some_0 })
            } else if kind == "dispute"@ {
                Ok(Operation::Dispute { acc_id, tx_id })
            } else if kind == "resolve"@ {
                Ok(Operation::Resolve { acc_id, tx_id })
            } else if kind == "chargeback"@ {
                Ok(Operation::Chargeback { acc_id, tx_id })
            } else {
                Err(CsvParseErrorView::InvalidType)
            }
        }
    }
}

/// A row of the operation stream, each field as it was found or not.
#[derive(Debug, Clone)]
pub struct CsvOperation {
    op_type: Option<String>,
    client: Option<u16>,
    tx: Option<u32>,
    amount: Option<Decimal4>,
}

impl View for CsvOperation {
    type V = CsvOperationView;

    closed spec fn view(&self) -> CsvOperationView {
        CsvOperationView {
            op_type: match self.op_type {
                Some(kind) => Some(kind@),
                None => None,
            },
            client: self.client,
            tx: self.tx,
            amount: self.amount,
        }
    }
}

/// Whether a text is the given word.
fn is_word(text: &String, word: &str) -> (r: bool)
    ensures
        r == (text@ == word@),
{
    *text == word.to_owned()
}

impl CsvOperation {
    /// A row with the given fields.
    pub fn new(
        op_type: Option<String>,
        client: Option<u16>,
        tx: Option<u32>,
        amount: Option<Decimal4>,
    ) -> (r: CsvOperation)
        ensures
            r@ == (CsvOperationView {
                op_type: match op_type {
                    Some(kind) => Some(kind@),
                    None => None,
                },
                client,
                tx,
                amount,
            }),
    {
        CsvOperation { op_type, client, tx, amount }
    }

    /// The operation that the row stands for, or the reason why it stands
    /// for none.
    pub fn try_into(self) -> (r: Result<Operation, CsvParseError>)
        ensures
            match r {
                Ok(operation) => self@.operation() == Ok::<Operation, CsvParseErrorView>(
                    operation,
                ),
                Err(e) => self@.operation() == Err::<Operation, CsvParseErrorView>(e@),
            },
    {
        self.to_operation()
    }

    /// The operation that the row stands for, or the reason why it stands
    /// for none; the row stays with the caller.
    pub fn to_operation(&self) -> (r: Result<Operation, CsvParseError>)
        ensures
            match r {
                Ok(operation) => self@.operation() == Ok::<Operation, CsvParseErrorView>(
                    operation,
                ),
                Err(e) => self@.operation() == Err::<Operation, CsvParseErrorView>(e@),
            },
    {
        let op_type = match &self.op_type {
            Some(kind) => kind,
            None => {
                return Err(CsvParseError::MissingField("type".to_owned()));
            },
        };
        let client = match self.client {
            Some(client) => client,
            None => {
                return Err(CsvParseError::MissingField("client".to_owned()));
            },
        };
        let tx = match self.tx {
            Some(tx) => tx,
            None => {
                return Err(CsvParseError::MissingField("tx".to_owned()));
            },
        };
        let deposit = is_word(op_type, "deposit");
        let withdrawal = is_word(op_type, "withdrawal");
        let amount = match self.amount {
            Some(amount) => {
                if amount.is_negative() {
                    return Err(CsvParseError::NegativeAmount);
                }
                amount
            },
            None => {
                if deposit || withdrawal {
                    return Err(CsvParseError::MissingField("amount".to_owned()));
                }
                Decimal4::zero()
            },
        };
        if deposit {
            Ok(Operation::Deposit { acc_id: client, tx_id: tx, amount })
        } else if withdrawal {
            Ok(Operation::Withdraw { acc_id: client, tx_id: tx, amount })
        } else if is_word(op_type, "dispute") {
            Ok(Operation::Dispute { acc_id: client, tx_id: tx })
        } else if is_word(op_type, "resolve") {
            Ok(Operation::Resolve { acc_id: client, tx_id: tx })
        } else if is_word(op_type, "chargeback") {
            Ok(Operation::Chargeback { acc_id: client, tx_id: tx })
        } else {
            Err(CsvParseError::InvalidType)
        }
    }
}

/// Applies the operation that a row stands for, and tells whether it was
/// committed. A row that stands for no operation, and an operation that the
/// engine refuses or the store fails on, leave the ledger as it was.
pub fn apply_row<TStorage: Storage>(engine: &mut Engine<TStorage>, row: CsvOperation) -> (r: bool)
    ensures
        match row@.operation() {
            Ok(operation) => if r {
                operation.outcome(old(engine).ledger()) == Ok::<Ledger, crate::engine::EngineError>(
                    final(engine).ledger(),
                )
            } else {
                final(engine).ledger() == old(engine).ledger()
            },
            Err(_) => !r && final(engine).ledger() == old(engine).ledger(),
        },
{
    apply_read_row(engine, &row)
}

/// What [`apply_row`] does, for a row that stays with the caller.
fn apply_read_row<TStorage: Storage>(engine: &mut Engine<TStorage>, row: &CsvOperation) -> (r: bool)
    ensures
        match row@.operation() {
            Ok(operation) => if r {
                operation.outcome(old(engine).ledger()) == Ok::<Ledger, crate::engine::EngineError>(
                    final(engine).ledger(),
                )
            } else {
                final(engine).ledger() == old(engine).ledger()
            },
            Err(_) => !r && final(engine).ledger() == old(engine).ledger(),
        },
{
    match row.to_operation() {
        Ok(operation) => engine.execute_operation(operation).is_ok(),
        Err(_) => false,
    }
}

/// Whether the row stands for an operation that leads from `before` to
/// `after`.
pub open spec fn committed(before: Ledger, row: Option<CsvOperation>, after: Ledger) -> bool {
    row matches Some(read) && read@.operation() matches Ok(operation) && operation.outcome(before)
        == Ok::<Ledger, crate::engine::EngineError>(after)
}

/// Whether one row takes the ledger `mid` with `done` rows committed to the
/// ledger `after` with `count` rows committed: either the row is committed,
/// or ledger and count stay.
pub open spec fn step(
    mid: Ledger,
    done: nat,
    row: Option<CsvOperation>,
    after: Ledger,
    count: nat,
) -> bool {
    if count == done {
        after == mid
    } else {
        count == done + 1 && committed(mid, row, after)
    }
}

/// Whether `ledgers` and `counts` are what the rows pass through from the
/// ledger `before`: the ledger and the number of committed rows before the
/// first row and after each row, each row a [`step`].
pub open spec fn follows(
    before: Ledger,
    rows: Seq<Option<CsvOperation>>,
    ledgers: Seq<Ledger>,
    counts: Seq<nat>,
) -> bool {
    &&& ledgers.len() == rows.len() + 1
    &&& counts.len() == rows.len() + 1
    &&& ledgers[0] == before
    &&& counts[0] == 0
    &&& forall|i: int|
        0 <= i < rows.len() ==> step(
            ledgers[i],
            counts[i],
            #[trigger] rows[i],
            ledgers[i + 1],
            counts[i + 1],
        )
}

/// Whether the rows can lead from the ledger `before` to the ledger `after`
/// with `count` of them committed: one by one, each row either is committed,
/// and then stands for an operation that leads to the next ledger, or leaves
/// the ledger as it is. A row that could not be read, `None`, is never
/// committed.
pub open spec fn leads_to(
    before: Ledger,
    rows: Seq<Option<CsvOperation>>,
    after: Ledger,
    count: nat,
) -> bool {
    exists|ledgers: Seq<Ledger>, counts: Seq<nat>| #[trigger]
        follows(before, rows, ledgers, counts) && ledgers.last() == after && counts.last()
            == count
}

/// Applies the rows one by one, as [`apply_row`] does, and counts those that
/// were committed. A row that could not be read, `None`, is passed over.
///
/// The ledger is one that the rows lead to, with as many rows committed as
/// are counted. So the count is at most the number of rows, a sound ledger
/// stays sound, and where nothing is counted the ledger is as it was.
pub fn apply_rows<TStorage: Storage>(
    engine: &mut Engine<TStorage>,
    rows: Vec<Option<CsvOperation>>,
) -> (r: u64)
    ensures
        leads_to(old(engine).ledger(), rows@, final(engine).ledger(), r as nat),
        r <= rows.len(),
        r == 0 ==> final(engine).ledger() == old(engine).ledger(),
        crate::laws::sound(old(engine).ledger()) ==> crate::laws::sound(final(engine).ledger()),
{
    let mut counter: u64 = 0;
    let mut i: usize = 0;
    let ghost mut ledgers: Seq<Ledger> = seq![engine.ledger()];
    let ghost mut counts: Seq<nat> = seq![0nat];
    while i < rows.len()
        invariant
            i <= rows.len(),
            counter <= i,
            follows(old(engine).ledger(), rows@.take(i as int), ledgers, counts),
            ledgers.last() == engine.ledger(),
            counts.last() == counter,
            counter == 0 ==> engine.ledger() == old(engine).ledger(),
            crate::laws::sound(old(engine).ledger()) ==> crate::laws::sound(engine.ledger()),
        decreases rows.len() - i,
    {
        let ghost mid = engine.ledger();
        let ghost done = counter as nat;
        let applied = match &rows[i] {
            Some(row) => apply_read_row(engine, row),
            None => false,
        };
        if applied {
            counter += 1;
        }
        proof {
            let seen = rows@.take(i as int);
            let next = rows@.take(i as int + 1);
            let passed = ledgers.push(engine.ledger());
            let counted = counts.push(counter as nat);
            if applied && crate::laws::sound(mid) {
                crate::laws::lemma_soundness_is_kept(
                    mid,
                    rows@[i as int]->Some_0@.operation()->Ok_0,
                );
            }
            assert(step(mid, done, rows@[i as int], engine.ledger(), counter as nat));
            assert forall|k: int| 0 <= k < next.len() implies step(
                passed[k],
                counted[k],
                #[trigger] next[k],
                passed[k + 1],
                counted[k + 1],
            ) by {
                if k < i {
                    assert(seen[k] == next[k]);
                }
            }
            ledgers = passed;
            counts = counted;
        }
        i += 1;
    }
    proof {
        assert(rows@.take(rows.len() as int) =~= rows@);
    }
    counter
}

/// A row of the account report.
pub ghost struct CsvAccountView {
    pub client: u16,
    pub available: int,
    pub held: int,
    pub total: int,
    pub locked: bool,
}

/// A row of the account report: the balances of one client and their sum.
#[derive(Debug, Clone, Copy)]
pub struct CsvAccount {
    client: u16,
    available: Decimal4,
    held: Decimal4,
    total: Decimal4,
    locked: bool,
}

impl View for CsvAccount {
    type V = CsvAccountView;

    closed spec fn view(&self) -> CsvAccountView {
        CsvAccountView {
            client: self.client,
            available: self.available@,
            held: self.held@,
            total: self.total@,
            locked: self.locked,
        }
    }
}

/// The row that reports an account.
pub open spec fn report_of(account: AccountView) -> CsvAccountView {
    CsvAccountView {
        client: account.id,
        available: account.available,
        held: account.held,
        total: account.total(),
        locked: account.locked,
    }
}

impl CsvAccount {
    /// The row that reports `value`. The accounts are those whose total a
    /// [`Decimal4`] holds.
    pub fn from(value: Account) -> (r: CsvAccount)
        requires
            i64::MIN <= value@.total() <= i64::MAX,
        ensures
            r@ == report_of(value@),
    {
        CsvAccount {
            client: value.id(),
            available: value.available(),
            held: value.held(),
            total: value.total(),
            locked: value.locked(),
        }
    }

    /// The row that reports `value`, or `None` where no [`Decimal4`] holds
    /// the total.
    pub fn checked_from(value: Account) -> (r: Option<CsvAccount>)
        ensures
            match r {
                Some(row) => row@ == report_of(value@),
                None => !(i64::MIN <= value@.total() <= i64::MAX),
            },
    {
        match value.available().checked_add(value.held()) {
            Some(_) => Some(CsvAccount::from(value)),
            None => None,
        }
    }

    /// The client that the row reports.
    pub fn client(&self) -> (r: u16)
        ensures
            r == self@.client,
    {
        self.client
    }

    /// The available funds.
    pub fn available(&self) -> (r: Decimal4)
        ensures
            r@ == self@.available,
    {
        self.available
    }

    /// The held funds.
    pub fn held(&self) -> (r: Decimal4)
        ensures
            r@ == self@.held,
    {
        self.held
    }

    /// Available and held funds together.
    pub fn total(&self) -> (r: Decimal4)
        ensures
            r@ == self@.total,
    {
        self.total
    }

    /// Whether the account is locked.
    pub fn locked(&self) -> (r: bool)
        ensures
            r == self@.locked,
    {
        self.locked
    }
}

} // verus!
