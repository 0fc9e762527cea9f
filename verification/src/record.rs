//! Accounts and transactions as the bytes that a store keeps.
//!
//! A record is a short list of integers, written and read as MessagePack by
//! `rmp_serde`. The id of a record is not part of it: it is the key that the
//! record is filed under.

use crate::account::Account;
use crate::account::AccountView;
use crate::decimal::Decimal4;
use crate::transaction::Transaction;
use crate::transaction::TransactionState;
use crate::transaction::TransactionType;
use crate::transaction::TransactionView;
use vstd::prelude::*;

verus! {

/// The list of integers that `rmp_serde` reads from `bytes`, or `None` where
/// it reads none.
pub uninterp spec fn unpacked(bytes: Seq<u8>) -> Option<Seq<i64>>;

/// The bytes that `rmp_serde` writes for a list of integers.
pub uninterp spec fn packed(fields: Seq<i64>) -> Seq<u8>;

/// Writes a list of integers with `rmp_serde::to_vec`, which gives up where
/// the allocator has no room for the bytes.
///
/// Trusted: what is written is what the name `packed` stands for, and it
/// reads back, by `rmp_serde::from_slice`, as the same list. Whether
/// anything is written is not promised.
#[verifier::external_body]
fn pack(fields: &Vec<i64>) -> (r: Option<Vec<u8>>)
    ensures
        r matches Some(bytes) ==> bytes@ == packed(fields@) && unpacked(bytes@) == Some(fields@),
{
    rmp_serde::to_vec(fields).ok()
}

/// Reads a list of integers with `rmp_serde::from_slice`.
///
/// Trusted: the result is the one that the name `unpacked` stands for.
#[verifier::external_body]
fn unpack(bytes: &Vec<u8>) -> (r: Option<Vec<i64>>)
    ensures
        unpacked(bytes@) == match r {
            Some(fields) => Some(fields@),
            None => None,
        },
{
    rmp_serde::from_slice(bytes).ok()
}

/// The number that stands for a kind of transaction.
pub open spec fn type_code(tx_type: TransactionType) -> i64 {
    match tx_type {
        TransactionType::Deposit => 0,
        TransactionType::Withdrawal => 1,
    }
}

/// The number that stands for a state of the dispute lifecycle.
pub open spec fn state_code(state: TransactionState) -> i64 {
    match state {
        TransactionState::Posted => 0,
        TransactionState::Disputed => 1,
        TransactionState::Resolved => 2,
        TransactionState::Chargeback => 3,
    }
}

/// The record of an account: available, held, locked, version.
pub open spec fn account_fields(account: AccountView) -> Seq<i64> {
    seq![
        account.available as i64,
        account.held as i64,
        if account.locked { 1i64 } else { 0i64 },
        account.version as i64,
    ]
}

/// The account of client `id` that a record stands for, if it stands for
/// one.
pub open spec fn account_of_fields(id: u16, fields: Seq<i64>) -> Option<AccountView> {
    if fields.len() == 4 && 0 <= fields[2] <= 1 && 0 <= fields[3] <= u16::MAX {
        Some(
            AccountView {
                id,
                available: fields[0] as int,
                held: fields[1] as int,
                locked: fields[2] == 1,
                version: fields[3] as u16,
            },
        )
    } else {
        None
    }
}

/// The record of a transaction: client, kind, amount, state, version.
pub open spec fn transaction_fields(transaction: TransactionView) -> Seq<i64> {
    seq![
        transaction.account_id as i64,
        type_code(transaction.tx_type),
        transaction.amount as i64,
        state_code(transaction.state),
        transaction.version as i64,
    ]
}

/// The transaction `id` that a record stands for, if it stands for one.
pub open spec fn transaction_of_fields(id: u32, fields: Seq<i64>) -> Option<TransactionView> {
    if fields.len() == 5 && 0 <= fields[0] <= u16::MAX && 0 <= fields[1] <= 1 && 0 <= fields[3]
        <= 3 && 0 <= fields[4] <= u16::MAX {
        Some(
            TransactionView {
                id,
                account_id: fields[0] as u16,
                tx_type: if fields[1] == 0 {
                    TransactionType::Deposit
                } else {
                    TransactionType::Withdrawal
                },
                amount: fields[2] as int,
                state: if fields[3] == 0 {
                    TransactionState::Posted
                } else if fields[3] == 1 {
                    TransactionState::Disputed
                } else if fields[3] == 2 {
                    TransactionState::Resolved
                } else {
                    TransactionState::Chargeback
                },
                version: fields[4] as u16,
            },
        )
    } else {
        None
    }
}

/// The bytes that an account is kept as.
pub open spec fn account_bytes(account: AccountView) -> Seq<u8> {
    packed(account_fields(account))
}

/// The bytes that a transaction is kept as.
pub open spec fn transaction_bytes(transaction: TransactionView) -> Seq<u8> {
    packed(transaction_fields(transaction))
}

/// The account of client `id` that stored bytes stand for, if they stand for
/// one.
pub open spec fn stored_account(id: u16, bytes: Seq<u8>) -> Option<AccountView> {
    match unpacked(bytes) {
        Some(fields) => account_of_fields(id, fields),
        None => None,
    }
}

/// The transaction `id` that stored bytes stand for, if they stand for one.
pub open spec fn stored_transaction(id: u32, bytes: Seq<u8>) -> Option<TransactionView> {
    match unpacked(bytes) {
        Some(fields) => transaction_of_fields(id, fields),
        None => None,
    }
}

/// A record reads back as the account that it was made of.
pub proof fn lemma_account_fields_read_back(account: AccountView)
    requires
        account.representable(),
    ensures
        account_of_fields(account.id, account_fields(account)) == Some(account),
{
}

/// A record reads back as the transaction that it was made of.
pub proof fn lemma_transaction_fields_read_back(transaction: TransactionView)
    requires
        i64::MIN <= transaction.amount <= i64::MAX,
    ensures
        transaction_of_fields(transaction.id, transaction_fields(transaction)) == Some(
            transaction,
        ),
{
}

/// The record of an account.
pub fn account_to_fields(account: &Account) -> (r: Vec<i64>)
    ensures
        r@ == account_fields(account@),
        account_of_fields(account@.id, r@) == Some(account@),
{
    let locked: i64 = if account.locked() { 1 } else { 0 };
    let fields: Vec<i64> = vec![
        account.available().units(),
        account.held().units(),
        locked,
        account.version() as i64,
    ];
    proof {
        account.lemma_representable();
        assert(fields@ =~= account_fields(account@));
        lemma_account_fields_read_back(account@);
    }
    fields
}

/// The account of client `id` that a record stands for, if it stands for
/// one: a record of four numbers, the third of which is 0 or 1 and the
/// fourth a version.
pub fn account_from_fields(id: u16, fields: &Vec<i64>) -> (r: Option<Account>)
    ensures
        match r {
            Some(account) => account_of_fields(id, fields@) == Some(account@),
            None => account_of_fields(id, fields@) is None,
        },
{
    if fields.len() != 4 || fields[2] < 0 || fields[2] > 1 || fields[3] < 0 || fields[3]
        > u16::MAX as i64 {
        return None;
    }
    Some(
        Account::from_parts(
            id,
            Decimal4::from_units(fields[0]),
            Decimal4::from_units(fields[1]),
            fields[2] == 1,
            fields[3] as u16,
        ),
    )
}

/// The record of a transaction.
pub fn transaction_to_fields(transaction: &Transaction) -> (r: Vec<i64>)
    ensures
        r@ == transaction_fields(transaction@),
        transaction_of_fields(transaction@.id, r@) == Some(transaction@),
{
    let tx_type: i64 = match transaction.tx_type() {
        TransactionType::Deposit => 0,
        TransactionType::Withdrawal => 1,
    };
    let state: i64 = match transaction.state() {
        TransactionState::Posted => 0,
        TransactionState::Disputed => 1,
        TransactionState::Resolved => 2,
        TransactionState::Chargeback => 3,
    };
    let amount = transaction.amount();
    let fields: Vec<i64> = vec![
        transaction.account_id() as i64,
        tx_type,
        amount.units(),
        state,
        transaction.version() as i64,
    ];
    proof {
        amount.lemma_view();
        assert(fields@ =~= transaction_fields(transaction@));
        lemma_transaction_fields_read_back(transaction@);
    }
    fields
}

/// The transaction `id` that a record stands for, if it stands for one: a
/// record of five numbers, of which the first is a client id, the second 0
/// or 1, the fourth one of 0 to 3 and the fifth a version.
pub fn transaction_from_fields(id: u32, fields: &Vec<i64>) -> (r: Option<Transaction>)
    ensures
        match r {
            Some(transaction) => transaction_of_fields(id, fields@) == Some(transaction@),
            None => transaction_of_fields(id, fields@) is None,
        },
{
    if fields.len() != 5 || fields[0] < 0 || fields[0] > u16::MAX as i64 || fields[1] < 0
        || fields[1] > 1 || fields[3] < 0 || fields[3] > 3 || fields[4] < 0 || fields[4]
        > u16::MAX as i64 {
        return None;
    }
    let tx_type = if fields[1] == 0 {
        TransactionType::Deposit
    } else {
        TransactionType::Withdrawal
    };
    let state = if fields[3] == 0 {
        TransactionState::Posted
    } else if fields[3] == 1 {
        TransactionState::Disputed
    } else if fields[3] == 2 {
        TransactionState::Resolved
    } else {
        TransactionState::Chargeback
    };
    Some(
        Transaction::from_parts(
            id,
            fields[0] as u16,
            tx_type,
            Decimal4::from_units(fields[2]),
            state,
            fields[4] as u16,
        ),
    )
}

/// The bytes that the account is kept as, which read back as that account.
/// `None` where the bytes could not be written, which the allocator
/// decides.
pub fn encode_account(account: &Account) -> (r: Option<Vec<u8>>)
    ensures
        r matches Some(bytes) ==> bytes@ == account_bytes(account@) && stored_account(
            account@.id,
            bytes@,
        ) == Some(account@),
{
    let fields = account_to_fields(account);
    pack(&fields)
}

/// The account of client `id` that `bytes` stand for, if they stand for one.
pub fn decode_account(id: u16, bytes: &Vec<u8>) -> (r: Option<Account>)
    ensures
        match r {
            Some(account) => stored_account(id, bytes@) == Some(account@),
            None => stored_account(id, bytes@) is None,
        },
{
    match unpack(bytes) {
        Some(fields) => account_from_fields(id, &fields),
        None => None,
    }
}

/// The bytes that the transaction is kept as, which read back as that
/// transaction. `None` where the bytes could not be written, which the
/// allocator decides.
pub fn encode_transaction(transaction: &Transaction) -> (r: Option<Vec<u8>>)
    ensures
        r matches Some(bytes) ==> bytes@ == transaction_bytes(transaction@)
            && stored_transaction(transaction@.id, bytes@) == Some(transaction@),
{
    let fields = transaction_to_fields(transaction);
    pack(&fields)
}

/// The transaction `id` that `bytes` stand for, if they stand for one.
pub fn decode_transaction(id: u32, bytes: &Vec<u8>) -> (r: Option<Transaction>)
    ensures
        match r {
            Some(transaction) => stored_transaction(id, bytes@) == Some(transaction@),
            None => stored_transaction(id, bytes@) is None,
        },
{
    match unpack(bytes) {
        Some(fields) => transaction_from_fields(id, &fields),
        None => None,
    }
}

} // verus!
