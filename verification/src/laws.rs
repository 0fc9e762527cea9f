//! What holds of every ledger, proved from the definitions in
//! [`crate::ledger`]: what a repeated operation does, how versions and totals
//! move, what a lock and a chargeback settle for good, and the invariants
//! that every operation keeps.

use crate::account::AccountView;
use crate::engine::fingerprint;
use crate::engine::EngineError;
use crate::engine::Operation;
use crate::engine::DEPOSIT_TAG;
use crate::engine::WITHDRAW_TAG;
use crate::ledger::Ledger;
use crate::transaction::next_version;
use crate::transaction::TransactionState;
use crate::transaction::TransactionType;
use crate::transaction::TransactionView;
use vstd::prelude::*;

verus! {

/// The ledger that an operation leaves: the one it leads to, or the one it
/// found where it is rejected.
pub open spec fn state_after(ledger: Ledger, operation: Operation) -> Ledger {
    match operation.outcome(ledger) {
        Ok(after) => after,
        Err(_) => ledger,
    }
}

/// An operation keeps every record filed under its own id.
pub proof fn lemma_consistency_is_kept(ledger: Ledger, operation: Operation)
    requires
        ledger.consistent(),
    ensures
        state_after(ledger, operation).consistent(),
{
}

/// An operation that is applied a second time leaves the ledger as the
/// first application left it. A deposit or a withdrawal is then passed over
/// as a replay; a step of the dispute workflow is rejected, since no step
/// leads from a state to itself.
pub proof fn lemma_repeat_changes_nothing(ledger: Ledger, operation: Operation)
    requires
        ledger.consistent(),
    ensures
        state_after(state_after(ledger, operation), operation) == state_after(ledger, operation),
{
}

/// After a deposit or a withdrawal has succeeded, a deposit or withdrawal of
/// the same kind, client and transaction id succeeds and changes nothing,
/// whatever positive amount it names.
pub proof fn lemma_replay_ignores_amount(ledger: Ledger, first: Operation, second: Operation)
    requires
        first is Deposit || first is Withdraw,
        fingerprint(first.tag(), first.acc_id(), first.tx_id()) == fingerprint(
            second.tag(),
            second.acc_id(),
            second.tx_id(),
        ),
        first.outcome(ledger) is Ok,
        (second matches Operation::Deposit { amount, .. } && amount@ > 0) || (
        second matches Operation::Withdraw { amount, .. } && amount@ > 0),
    ensures
        second.outcome(state_after(ledger, first)) == Ok::<Ledger, EngineError>(
            state_after(ledger, first),
        ),
{
    crate::engine::lemma_fingerprint_injective(
        first.tag(),
        first.acc_id(),
        first.tx_id(),
        second.tag(),
        second.acc_id(),
        second.tx_id(),
    );
}

/// An operation that changes an account or a transaction raises its version
/// by one, from 65535 to 0, and touches no other record. A new account is
/// left at version 1 by its first deposit, a new transaction starts at
/// version 0.
pub proof fn lemma_commit_advances_versions(ledger: Ledger, operation: Operation)
    requires
        ledger.consistent(),
        operation.outcome(ledger) is Ok,
        state_after(ledger, operation) != ledger,
    ensures
        ({
            let after = state_after(ledger, operation);
            let acc_id = operation.acc_id();
            let tx_id = operation.tx_id();
            &&& after.accounts.contains_key(acc_id)
            &&& after.transactions.contains_key(tx_id)
            &&& after.accounts[acc_id].version == match ledger.account(acc_id) {
                Some(account) => next_version(account.version),
                None => 1,
            }
            &&& after.transactions[tx_id].version == match ledger.transaction(tx_id) {
                Some(transaction) => next_version(transaction.version),
                None => 0,
            }
            &&& forall|id: u16| id != acc_id ==> after.account(id) == ledger.account(id)
            &&& forall|id: u32| id != tx_id ==> after.transaction(id) == ledger.transaction(id)
        }),
{
}

/// The total of a client, which is nothing where the client has no account.
pub open spec fn total_of(ledger: Ledger, acc_id: u16) -> int {
    match ledger.account(acc_id) {
        Some(account) => account.total(),
        None => 0,
    }
}

/// Funds come and go only by their amount: a deposit raises the total of its
/// client by its amount, a withdrawal lowers it by its amount, a chargeback
/// lowers it by the amount of the transaction, and a dispute and a resolve
/// leave it as it is. No operation changes the total of another client.
pub proof fn lemma_totals_change_by_the_amount(ledger: Ledger, operation: Operation, id: u16)
    requires
        ledger.consistent(),
        operation.outcome(ledger) is Ok,
        state_after(ledger, operation) != ledger,
    ensures
        total_of(state_after(ledger, operation), id) == total_of(ledger, id) + if id
            != operation.acc_id() {
            0
        } else {
            match operation {
                Operation::Deposit { amount, .. } => amount@,
                Operation::Withdraw { amount, .. } => -amount@,
                Operation::Dispute { .. } => 0,
                Operation::Resolve { .. } => 0,
                Operation::Chargeback { tx_id, .. } => -ledger.transactions[tx_id].amount,
            }
        },
{
}

/// A locked account takes no deposit and no withdrawal: such an operation
/// leaves the whole ledger as it was. Whatever else is applied, the account
/// stays locked and its total does not grow: a dispute and a resolve keep the
/// total, a chargeback lowers it. A dispute does not raise the available
/// funds, a resolve and a chargeback do not raise the held ones.
pub proof fn lemma_locked_account_does_not_grow(ledger: Ledger, operation: Operation, id: u16)
    requires
        ledger.consistent(),
        ledger.accounts.contains_key(id),
        ledger.accounts[id].locked,
    ensures
        ({
            let before = ledger.accounts[id];
            let after = state_after(ledger, operation);
            &&& after.accounts.contains_key(id)
            &&& after.accounts[id].locked
            &&& after.accounts[id].total() <= before.total()
            &&& operation.acc_id() != id ==> after.accounts[id] == before
            &&& (operation is Deposit || operation is Withdraw) && operation.acc_id() == id
                ==> after == ledger
            &&& operation is Dispute ==> after.accounts[id].available <= before.available
            &&& operation is Resolve ==> after.accounts[id].held <= before.held
            &&& operation is Chargeback ==> after.accounts[id].held <= before.held
                && after.accounts[id].available == before.available
        }),
{
}

/// A dispute followed by a resolve of the same transaction leaves the
/// balances and the lock of the account as they were before the dispute.
pub proof fn lemma_dispute_then_resolve(ledger: Ledger, acc_id: u16, tx_id: u32)
    requires
        ledger.consistent(),
        ledger.dispute(acc_id, tx_id) is Ok,
    ensures
        ({
            let disputed = ledger.dispute(acc_id, tx_id)->Ok_0;
            &&& disputed.resolve(acc_id, tx_id) is Ok
            &&& disputed.resolve(acc_id, tx_id)->Ok_0.accounts[acc_id].available
                == ledger.accounts[acc_id].available
            &&& disputed.resolve(acc_id, tx_id)->Ok_0.accounts[acc_id].held
                == ledger.accounts[acc_id].held
            &&& disputed.resolve(acc_id, tx_id)->Ok_0.accounts[acc_id].locked
                == ledger.accounts[acc_id].locked
            &&& disputed.resolve(acc_id, tx_id)->Ok_0.transactions[tx_id].state
                == TransactionState::Resolved
        }),
{
}

/// The first deposit of a client who has no account opens one, and leaves it
/// with the amount as its available funds.
pub proof fn lemma_first_deposit_opens_account(ledger: Ledger, acc_id: u16, tx_id: u32, amount: int)
    requires
        amount > 0,
        !ledger.accounts.contains_key(acc_id),
        !ledger.transactions.contains_key(tx_id),
        !ledger.operations.contains(fingerprint(DEPOSIT_TAG, acc_id, tx_id)),
    ensures
        ledger.deposit(acc_id, tx_id, amount) is Ok,
        ledger.deposit(acc_id, tx_id, amount)->Ok_0.account(acc_id) == Some(
            AccountView { id: acc_id, available: amount, held: 0, locked: false, version: 1 },
        ),
{
}

/// A withdrawal of a client who has no account is rejected with
/// `AccountNotFound`.
pub proof fn lemma_withdrawal_needs_account(ledger: Ledger, acc_id: u16, tx_id: u32, amount: int)
    requires
        amount > 0,
        !ledger.accounts.contains_key(acc_id),
        !ledger.transactions.contains_key(tx_id),
        !ledger.operations.contains(fingerprint(WITHDRAW_TAG, acc_id, tx_id)),
    ensures
        ledger.withdraw(acc_id, tx_id, amount) == Err::<Ledger, EngineError>(
            EngineError::AccountNotFound,
        ),
{
}

/// A dispute, resolve or chargeback that names a transaction of another
/// client is rejected with `TransactionIsBoundToAnotherAccount`, which names
/// the client that the transaction belongs to.
pub proof fn lemma_transaction_of_another_client(
    ledger: Ledger,
    acc_id: u16,
    tx_id: u32,
    target: TransactionState,
)
    requires
        ledger.transactions.contains_key(tx_id),
        ledger.transactions[tx_id].account_id != acc_id,
    ensures
        ledger.advance(acc_id, tx_id, target) == Err::<Ledger, EngineError>(
            EngineError::TransactionIsBoundToAnotherAccount(
                ledger.transactions[tx_id].account_id,
            ),
        ),
{
}

/// A dispute, resolve or chargeback of a withdrawal is rejected with
/// `InvalidTxType`.
pub proof fn lemma_withdrawal_cannot_be_disputed(
    ledger: Ledger,
    acc_id: u16,
    tx_id: u32,
    target: TransactionState,
)
    requires
        ledger.transactions.contains_key(tx_id),
        ledger.transactions[tx_id].account_id == acc_id,
        ledger.transactions[tx_id].tx_type == TransactionType::Withdrawal,
        ledger.accounts.contains_key(acc_id),
    ensures
        ledger.advance(acc_id, tx_id, target) == Err::<Ledger, EngineError>(
            EngineError::InvalidTxType,
        ),
{
}

/// A chargeback is final: once it has succeeded, every dispute, resolve or
/// chargeback of the same transaction is rejected with
/// `ForbiddenTxStateTransition`.
pub proof fn lemma_chargeback_is_final(
    ledger: Ledger,
    acc_id: u16,
    tx_id: u32,
    target: TransactionState,
)
    requires
        ledger.consistent(),
        ledger.chargeback(acc_id, tx_id) is Ok,
    ensures
        ledger.chargeback(acc_id, tx_id)->Ok_0.advance(acc_id, tx_id, target) == Err::<
            Ledger,
            EngineError,
        >(
            EngineError::ForbiddenTxStateTransition {
                from: TransactionState::Chargeback,
                to: target,
            },
        ),
{
}

/// What a transaction keeps held in the account of client `acc_id`: its
/// amount while it is disputed on that account, else nothing.
pub open spec fn held_by(transaction: TransactionView, acc_id: u16) -> int {
    if transaction.account_id == acc_id && transaction.state == TransactionState::Disputed {
        transaction.amount
    } else {
        0
    }
}

/// What the transaction `tx_id`, if there is one, keeps held in the account
/// of client `acc_id`.
pub open spec fn held_at(transactions: Map<u32, TransactionView>, tx_id: u32, acc_id: u16) -> int {
    if transactions.contains_key(tx_id) {
        held_by(transactions[tx_id], acc_id)
    } else {
        0
    }
}

/// What the transactions with an id below `bound` keep held in the account
/// of client `acc_id`.
pub open spec fn held_below(transactions: Map<u32, TransactionView>, acc_id: u16, bound: nat) -> int
    decreases bound,
{
    if bound == 0 {
        0
    } else {
        held_below(transactions, acc_id, (bound - 1) as nat) + held_at(
            transactions,
            (bound - 1) as u32,
            acc_id,
        )
    }
}

/// What all transactions together keep held in the account of client
/// `acc_id`: the amounts of its disputed transactions.
pub open spec fn held_in_dispute(transactions: Map<u32, TransactionView>, acc_id: u16) -> int {
    held_below(transactions, acc_id, 0x1_0000_0000)
}

/// The held funds of a client, which are none where the client has no
/// account.
pub open spec fn held_of(ledger: Ledger, acc_id: u16) -> int {
    match ledger.account(acc_id) {
        Some(account) => account.held,
        None => 0,
    }
}

/// Whether the ledger is one that the operations build: every record is
/// filed under its own id, every transaction has a positive amount, and the
/// held funds of every client are the amounts of the client's disputed
/// transactions.
pub open spec fn sound(ledger: Ledger) -> bool {
    &&& ledger.consistent()
    &&& forall|id: u32| #[trigger]
        ledger.transactions.contains_key(id) ==> ledger.transactions[id].amount > 0
    &&& forall|id: u16| #[trigger]
        held_of(ledger, id) == held_in_dispute(ledger.transactions, id)
}

/// Filing a transaction changes what is held by as much as the new record
/// holds more than the one it replaces.
pub proof fn lemma_held_below_insert(
    transactions: Map<u32, TransactionView>,
    acc_id: u16,
    tx_id: u32,
    transaction: TransactionView,
    bound: nat,
)
    requires
        bound <= 0x1_0000_0000,
    ensures
        held_below(transactions.insert(tx_id, transaction), acc_id, bound) == held_below(
            transactions,
            acc_id,
            bound,
        ) + if tx_id < bound {
            held_by(transaction, acc_id) - held_at(transactions, tx_id, acc_id)
        } else {
            0
        },
    decreases bound,
{
    if bound > 0 {
        lemma_held_below_insert(transactions, acc_id, tx_id, transaction, (bound - 1) as nat);
    }
}

/// Where every amount is positive, what is held is not negative and not
/// less than what any one transaction holds.
pub proof fn lemma_held_below_bounds(
    transactions: Map<u32, TransactionView>,
    acc_id: u16,
    tx_id: u32,
    bound: nat,
)
    requires
        bound <= 0x1_0000_0000,
        forall|id: u32| #[trigger] transactions.contains_key(id) ==> transactions[id].amount > 0,
    ensures
        held_below(transactions, acc_id, bound) >= 0,
        tx_id < bound ==> held_below(transactions, acc_id, bound) >= held_at(
            transactions,
            tx_id,
            acc_id,
        ),
    decreases bound,
{
    if bound > 0 {
        lemma_held_below_bounds(transactions, acc_id, tx_id, (bound - 1) as nat);
    }
}

/// No transactions hold nothing.
pub proof fn lemma_held_below_nothing(acc_id: u16, bound: nat)
    ensures
        held_below(Map::<u32, TransactionView>::empty(), acc_id, bound) == 0,
    decreases bound,
{
    if bound > 0 {
        lemma_held_below_nothing(acc_id, (bound - 1) as nat);
    }
}

/// The empty ledger is sound.
pub proof fn lemma_empty_ledger_is_sound()
    ensures
        sound(Ledger::empty()),
{
    assert forall|id: u16| #[trigger]
        held_of(Ledger::empty(), id) == held_in_dispute(Ledger::empty().transactions, id) by {
        lemma_held_below_nothing(id, 0x1_0000_0000);
    }
}

/// Every operation leads from a sound ledger to a sound ledger.
pub proof fn lemma_soundness_is_kept(ledger: Ledger, operation: Operation)
    requires
        sound(ledger),
    ensures
        sound(state_after(ledger, operation)),
{
    let after = state_after(ledger, operation);
    if after != ledger {
        let tx_id = operation.tx_id();
        assert(after.transactions == ledger.transactions.insert(
            tx_id,
            after.transactions[tx_id],
        ));
        assert forall|id: u16| #[trigger]
            held_of(after, id) == held_in_dispute(after.transactions, id) by {
            assert(held_of(ledger, id) == held_in_dispute(ledger.transactions, id));
            lemma_held_below_insert(
                ledger.transactions,
                id,
                tx_id,
                after.transactions[tx_id],
                0x1_0000_0000,
            );
        }
    }
}

/// In a sound ledger no account has negative held funds.
pub proof fn lemma_held_is_never_negative(ledger: Ledger, acc_id: u16)
    requires
        sound(ledger),
    ensures
        held_of(ledger, acc_id) >= 0,
{
    assert(held_of(ledger, acc_id) == held_in_dispute(ledger.transactions, acc_id));
    lemma_held_below_bounds(ledger.transactions, acc_id, 0, 0x1_0000_0000);
}

/// Whether the operation is a dispute that the ledger accepts although the
/// account has less available than the disputed deposit brought: the one
/// operation that leaves available funds below zero.
pub open spec fn overdrawing_dispute(ledger: Ledger, operation: Operation) -> bool {
    operation matches Operation::Dispute { acc_id, tx_id } && ledger.dispute(acc_id, tx_id) is Ok
        && ledger.transactions[tx_id].amount > ledger.accounts[acc_id].available
}

/// Whether no account of the ledger has a negative balance.
pub open spec fn solvent(ledger: Ledger) -> bool {
    forall|id: u16| #[trigger] ledger.accounts.contains_key(id) ==> ledger.accounts[id].solvent()
}

/// From a sound ledger in which no balance is negative, every operation
/// but an overdrawing dispute leads to a ledger in which no balance is
/// negative.
pub proof fn lemma_balances_stay_nonnegative(ledger: Ledger, operation: Operation)
    requires
        sound(ledger),
        solvent(ledger),
        !overdrawing_dispute(ledger, operation),
    ensures
        solvent(state_after(ledger, operation)),
{
    let after = state_after(ledger, operation);
    lemma_soundness_is_kept(ledger, operation);
    assert forall|id: u16| #[trigger] after.accounts.contains_key(id) implies after.accounts[id].solvent() by {
        lemma_held_is_never_negative(after, id);
        if ledger.accounts.contains_key(id) {
            assert(ledger.accounts[id].solvent());
        }
    }
}

/// What an operation keeps of the ledger it is applied to: soundness, and
/// with it balances that are not negative, unless it is an overdrawing
/// dispute.
pub open spec fn keeps_invariants(before: Ledger, after: Ledger, operation: Operation) -> bool {
    &&& sound(before) ==> sound(after)
    &&& sound(before) && solvent(before) && !overdrawing_dispute(before, operation) ==> solvent(
        after,
    )
}

/// Whether an operation is committed or not, the ledger that it leaves has
/// kept the invariants.
pub proof fn lemma_invariants_are_kept(ledger: Ledger, operation: Operation)
    ensures
        keeps_invariants(ledger, state_after(ledger, operation), operation),
        keeps_invariants(ledger, ledger, operation),
{
    if sound(ledger) {
        lemma_soundness_is_kept(ledger, operation);
        if solvent(ledger) && !overdrawing_dispute(ledger, operation) {
            lemma_balances_stay_nonnegative(ledger, operation);
        }
    }
}

} // verus!
