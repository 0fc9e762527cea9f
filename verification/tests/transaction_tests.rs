use transactions_engine::decimal::Decimal4;
use transactions_engine::transaction::Transaction;
use transactions_engine::transaction::TransactionState;
use transactions_engine::transaction::TransactionType;
use transactions_engine::transaction::TxUpdateError;

#[test]
fn create_transaction() {
    let tx = Transaction::new(1, 1, TransactionType::Deposit, Decimal4::from(100));
    assert_eq!(tx.id(), 1);
    assert_eq!(tx.account_id(), 1);
    assert_eq!(tx.tx_type(), TransactionType::Deposit);
    assert_eq!(tx.amount().to_string(), "100.0000");
    assert_eq!(tx.state(), TransactionState::Posted);
    assert_eq!(tx.version(), 0);
}

#[test]
fn resolve_after_dispute_ok() {
    let mut tx = Transaction::new(1, 1, TransactionType::Deposit, Decimal4::from(100));
    assert_eq!(tx.set_state(TransactionState::Disputed), Ok(()));
    assert_eq!(tx.set_state(TransactionState::Resolved), Ok(()));
    assert_eq!(tx.state(), TransactionState::Resolved);
    assert_eq!(tx.version(), 2);
}

#[test]
fn transaction_resolve_after_chargeback_err() {
    let mut tx = Transaction::new(1, 1, TransactionType::Deposit, Decimal4::from(100));
    assert_eq!(tx.set_state(TransactionState::Disputed), Ok(()));
    assert_eq!(tx.set_state(TransactionState::Chargeback), Ok(()));
    assert_eq!(
        tx.set_state(TransactionState::Resolved),
        Err(TxUpdateError::ForbiddenTxStateTransition {
            from: TransactionState::Chargeback,
            to: TransactionState::Resolved
        })
    );
    assert_eq!(tx.state(), TransactionState::Chargeback);
    assert_eq!(tx.version(), 2);
}

#[test]
fn transaction_resolve_after_posted_err() {
    let mut tx = Transaction::new(1, 1, TransactionType::Deposit, Decimal4::from(100));
    assert_eq!(
        tx.set_state(TransactionState::Resolved),
        Err(TxUpdateError::ForbiddenTxStateTransition {
            from: TransactionState::Posted,
            to: TransactionState::Resolved
        })
    );
    assert_eq!(tx.state(), TransactionState::Posted);
    assert_eq!(tx.version(), 0);
}

#[test]
fn dispute_after_posted_ok() {
    let mut tx = Transaction::new(1, 1, TransactionType::Deposit, Decimal4::from(100));
    assert_eq!(tx.set_state(TransactionState::Disputed), Ok(()));
    assert_eq!(tx.state(), TransactionState::Disputed);
    assert_eq!(tx.version(), 1);
}

// A resolved deposit can be disputed again: the lifecycle has the step from
// Resolved back to Disputed, so the third change is accepted.
#[test]
fn dispute_after_resolved_err() {
    let mut tx = Transaction::new(1, 1, TransactionType::Deposit, Decimal4::from(100));
    assert_eq!(tx.set_state(TransactionState::Disputed), Ok(()));
    assert_eq!(tx.set_state(TransactionState::Resolved), Ok(()));
    assert_eq!(tx.set_state(TransactionState::Disputed), Ok(()));
    assert_eq!(tx.state(), TransactionState::Disputed);
    assert_eq!(tx.version(), 3);
}

#[test]
fn transaction_chargeback_after_posted_err() {
    let mut tx = Transaction::new(1, 1, TransactionType::Deposit, Decimal4::from(100));
    assert_eq!(
        tx.set_state(TransactionState::Chargeback),
        Err(TxUpdateError::ForbiddenTxStateTransition {
            from: TransactionState::Posted,
            to: TransactionState::Chargeback
        })
    );
    assert_eq!(tx.state(), TransactionState::Posted);
    assert_eq!(tx.version(), 0);
}

#[test]
fn chargeback_after_resolved_err() {
    let mut tx = Transaction::new(1, 1, TransactionType::Deposit, Decimal4::from(100));
    assert_eq!(tx.set_state(TransactionState::Disputed), Ok(()));
    assert_eq!(tx.set_state(TransactionState::Resolved), Ok(()));
    assert_eq!(
        tx.set_state(TransactionState::Chargeback),
        Err(TxUpdateError::ForbiddenTxStateTransition {
            from: TransactionState::Resolved,
            to: TransactionState::Chargeback
        })
    );
    assert_eq!(tx.state(), TransactionState::Resolved);
    assert_eq!(tx.version(), 2);
}

#[test]
fn dispute_after_chargeback_err() {
    let mut tx = Transaction::new(1, 1, TransactionType::Deposit, Decimal4::from(100));
    assert_eq!(tx.set_state(TransactionState::Disputed), Ok(()));
    assert_eq!(tx.set_state(TransactionState::Chargeback), Ok(()));
    assert_eq!(
        tx.set_state(TransactionState::Disputed),
        Err(TxUpdateError::ForbiddenTxStateTransition {
            from: TransactionState::Chargeback,
            to: TransactionState::Disputed
        })
    );
    assert_eq!(tx.state(), TransactionState::Chargeback);
    assert_eq!(tx.version(), 2);
}

#[test]
fn transition_to_the_same_state_is_refused() {
    let mut tx = Transaction::new(1, 1, TransactionType::Deposit, Decimal4::from(100));
    assert_eq!(
        tx.set_state(TransactionState::Posted),
        Err(TxUpdateError::ForbiddenTxStateTransition {
            from: TransactionState::Posted,
            to: TransactionState::Posted
        })
    );
    assert_eq!(tx.set_state(TransactionState::Disputed), Ok(()));
    assert_eq!(
        tx.set_state(TransactionState::Disputed),
        Err(TxUpdateError::ForbiddenTxStateTransition {
            from: TransactionState::Disputed,
            to: TransactionState::Disputed
        })
    );
    assert_eq!(tx.version(), 1);
}

#[test]
fn every_step_of_the_lifecycle() {
    let states = [
        TransactionState::Posted,
        TransactionState::Disputed,
        TransactionState::Resolved,
        TransactionState::Chargeback,
    ];
    let allowed = [
        (TransactionState::Posted, TransactionState::Disputed),
        (TransactionState::Disputed, TransactionState::Resolved),
        (TransactionState::Disputed, TransactionState::Chargeback),
        (TransactionState::Resolved, TransactionState::Disputed),
    ];
    for from in states {
        for to in states {
            let mut tx =
                Transaction::from_parts(9, 3, TransactionType::Deposit, Decimal4::from(1), from, 7);
            let result = tx.set_state(to);
            if allowed.contains(&(from, to)) {
                assert_eq!(result, Ok(()));
                assert_eq!(tx.state(), to);
                assert_eq!(tx.version(), 8);
            } else {
                assert_eq!(
                    result,
                    Err(TxUpdateError::ForbiddenTxStateTransition { from, to })
                );
                assert_eq!(tx.state(), from);
                assert_eq!(tx.version(), 7);
            }
            assert_eq!(tx.id(), 9);
            assert_eq!(tx.account_id(), 3);
        }
    }
}

#[test]
fn withdrawal_refuses_every_change() {
    let states = [
        TransactionState::Posted,
        TransactionState::Disputed,
        TransactionState::Resolved,
        TransactionState::Chargeback,
    ];
    for to in states {
        let mut tx = Transaction::new(1, 1, TransactionType::Withdrawal, Decimal4::from(100));
        assert_eq!(tx.set_state(to), Err(TxUpdateError::InvalidTxType));
        assert_eq!(tx.state(), TransactionState::Posted);
        assert_eq!(tx.version(), 0);
    }
}

#[test]
fn transaction_version_wraps() {
    let mut tx = Transaction::from_parts(
        1,
        1,
        TransactionType::Deposit,
        Decimal4::from(1),
        TransactionState::Posted,
        u16::MAX,
    );
    assert_eq!(tx.set_state(TransactionState::Disputed), Ok(()));
    assert_eq!(tx.version(), 0);
}
