//! The record of a deposit or a withdrawal and its dispute lifecycle.

use crate::decimal::Decimal4;
use vstd::prelude::*;

verus! {

/// The kind of money movement that a transaction records.
#[derive(Debug, Clone, Copy, PartialEq, Eq, Structural)]
pub enum TransactionType {
    Deposit,
    Withdrawal,
}

/// Where a transaction stands in the dispute lifecycle.
#[derive(Debug, Clone, Copy, PartialEq, Eq, Structural)]
pub enum TransactionState {
    Posted,
    Disputed,
    Resolved,
    Chargeback,
}

/// Why a transaction refused a change of state.
#[derive(Debug, Clone, Copy, PartialEq, Eq, Structural)]
pub enum TxUpdateError {
    /// Only deposits can be disputed, resolved or charged back.
    InvalidTxType,
    /// The lifecycle has no step from `from` to `to`.
    ForbiddenTxStateTransition { from: TransactionState, to: TransactionState },
}

/// The version after one more accepted change: one more, and 0 after 65535.
pub open spec fn next_version(version: u16) -> u16 {
    if version == u16::MAX {
        0
    } else {
        (version + 1) as u16
    }
}

/// Computes [`next_version`].
pub fn bump_version(version: u16) -> (r: u16)
    ensures
        r == next_version(version),
        r as int == (version + 1) % 65536,
{
    if version == u16::MAX {
        0
    } else {
        version + 1
    }
}

/// The steps of the dispute lifecycle: a posted or resolved deposit can be
/// disputed, a disputed one resolved or charged back. A chargeback is final.
pub open spec fn transition_allowed(from: TransactionState, to: TransactionState) -> bool {
    match (from, to) {
        (TransactionState::Posted, TransactionState::Disputed) => true,
        (TransactionState::Disputed, TransactionState::Resolved) => true,
        (TransactionState::Disputed, TransactionState::Chargeback) => true,
        (TransactionState::Resolved, TransactionState::Disputed) => true,
        _ => false,
    }
}

/// What a transaction holds, with the amount in ten-thousandths.
pub ghost struct TransactionView {
    pub id: u32,
    pub account_id: u16,
    pub tx_type: TransactionType,
    pub amount: int,
    pub state: TransactionState,
    pub version: u16,
}

impl TransactionView {
    /// A transaction as it is first recorded: posted, at version 0.
    pub open spec fn posted(
        id: u32,
        account_id: u16,
        tx_type: TransactionType,
        amount: int,
    ) -> TransactionView {
        TransactionView {
            id,
            account_id,
            tx_type,
            amount,
            state: TransactionState::Posted,
            version: 0,
        }
    }

    /// The transaction after a change of state to `to`, or the reason why
    /// the change is refused. A withdrawal refuses every change; a deposit
    /// accepts the steps of the lifecycle, each of which raises the version.
    pub open spec fn set_state(self, to: TransactionState) -> Result<
        TransactionView,
        TxUpdateError,
    > {
        if self.tx_type == TransactionType::Withdrawal {
            Err(TxUpdateError::InvalidTxType)
        } else if transition_allowed(self.state, to) {
            Ok(TransactionView { state: to, version: next_version(self.version), ..self })
        } else {
            Err(TxUpdateError::ForbiddenTxStateTransition { from: self.state, to })
        }
    }
}

/// A deposit or a withdrawal, bound to the account that made it.
#[derive(Debug, Clone, Copy)]
pub struct Transaction {
    id: u32,
    account_id: u16,
    tx_type: TransactionType,
    amount: Decimal4,
    state: TransactionState,
    version: u16,
}

impl View for Transaction {
    type V = TransactionView;

    closed spec fn view(&self) -> TransactionView {
        TransactionView {
            id: self.id,
            account_id: self.account_id,
            tx_type: self.tx_type,
            amount: self.amount@,
            state: self.state,
            version: self.version,
        }
    }
}

impl Transaction {
    /// A posted transaction at version 0.
    pub fn new(id: u32, account_id: u16, tx_type: TransactionType, amount: Decimal4) -> (r:
        Transaction)
        ensures
            r@ == TransactionView::posted(id, account_id, tx_type, amount@),
    {
        Transaction { id, account_id, tx_type, amount, state: TransactionState::Posted, version: 0 }
    }

    /// A transaction with every field given, as a store hands it back.
    pub fn from_parts(
        id: u32,
        account_id: u16,
        tx_type: TransactionType,
        amount: Decimal4,
        state: TransactionState,
        version: u16,
    ) -> (r: Transaction)
        ensures
            r@ == (TransactionView { id, account_id, tx_type, amount: amount@, state, version }),
    {
        Transaction { id, account_id, tx_type, amount, state, version }
    }

    /// The id of the transaction.
    pub fn id(&self) -> (r: u32)
        ensures
            r == self@.id,
    {
        self.id
    }

    /// The client that made the transaction.
    pub fn account_id(&self) -> (r: u16)
        ensures
            r == self@.account_id,
    {
        self.account_id
    }

    /// Whether the transaction is a deposit or a withdrawal.
    pub fn tx_type(&self) -> (r: TransactionType)
        ensures
            r == self@.tx_type,
    {
        self.tx_type
    }

    /// The amount that was moved.
    pub fn amount(&self) -> (r: Decimal4)
        ensures
            r@ == self@.amount,
    {
        self.amount
    }

    /// Where the transaction stands in the dispute lifecycle.
    pub fn state(&self) -> (r: TransactionState)
        ensures
            r == self@.state,
    {
        self.state
    }

    /// The number of changes of state that the transaction has taken, modulo 65536.
    pub fn version(&self) -> (r: u16)
        ensures
            r == self@.version,
    {
        self.version
    }

    /// Moves the transaction to `new_state` where the lifecycle has that
    /// step, and raises the version. A refused change leaves the transaction
    /// as it was.
    pub fn set_state(&mut self, new_state: TransactionState) -> (r: Result<(), TxUpdateError>)
        ensures
            match r {
                Ok(()) => old(self)@.set_state(new_state) == Ok::<TransactionView, TxUpdateError>(
                    final(self)@,
                ),
                Err(e) => old(self)@.set_state(new_state) == Err::<TransactionView, TxUpdateError>(
                    e,
                ) && final(self)@ == old(self)@,
            },
    {
        match self.tx_type {
            TransactionType::Withdrawal => {
                return Err(TxUpdateError::InvalidTxType);
            },
            TransactionType::Deposit => {},
        }
        match (self.state, new_state) {
            (TransactionState::Posted, TransactionState::Disputed) => {
                self.state = TransactionState::Disputed;
                self.version = bump_version(self.version);
                Ok(())
            },
            (TransactionState::Disputed, TransactionState::Resolved) => {
                self.state = TransactionState::Resolved;
                self.version = bump_version(self.version);
                Ok(())
            },
            (TransactionState::Disputed, TransactionState::Chargeback) => {
                self.state = TransactionState::Chargeback;
                self.version = bump_version(self.version);
                Ok(())
            },
            (TransactionState::Resolved, TransactionState::Disputed) => {
                self.state = TransactionState::Disputed;
                self.version = bump_version(self.version);
                Ok(())
            },
            (from, to) => Err(TxUpdateError::ForbiddenTxStateTransition { from, to }),
        }
    }
}

} // verus!
