use transactions_engine::account::Account;
use transactions_engine::csv_parser::apply_row;
use transactions_engine::csv_parser::apply_rows;
use transactions_engine::csv_parser::CsvAccount;
use transactions_engine::csv_parser::CsvOperation;
use transactions_engine::csv_parser::CsvParseError;
use transactions_engine::decimal::Decimal4;
use transactions_engine::engine::Engine;
use transactions_engine::engine::Operation;
use transactions_engine::storage::EchoDbStorage;

fn row(kind: &str, client: u16, tx: u32, amount: Option<i32>) -> CsvOperation {
    CsvOperation::new(
        Some(kind.to_string()),
        Some(client),
        Some(tx),
        amount.map(Decimal4::from),
    )
}

#[test]
fn row_of_each_kind() {
    assert_eq!(
        row("deposit", 1, 2, Some(3)).try_into(),
        Ok(Operation::Deposit { acc_id: 1, tx_id: 2, amount: Decimal4::from(3) })
    );
    assert_eq!(
        row("withdrawal", 4, 5, Some(6)).try_into(),
        Ok(Operation::Withdraw { acc_id: 4, tx_id: 5, amount: Decimal4::from(6) })
    );
    assert_eq!(
        row("dispute", 7, 8, None).try_into(),
        Ok(Operation::Dispute { acc_id: 7, tx_id: 8 })
    );
    assert_eq!(
        row("resolve", 9, 10, None).try_into(),
        Ok(Operation::Resolve { acc_id: 9, tx_id: 10 })
    );
    assert_eq!(
        row("chargeback", 11, 12, None).try_into(),
        Ok(Operation::Chargeback { acc_id: 11, tx_id: 12 })
    );
}

#[test]
fn row_with_a_missing_field() {
    let amount = Some(Decimal4::from(1));
    assert_eq!(
        CsvOperation::new(None, None, None, None).try_into(),
        Err(CsvParseError::MissingField("type".to_string()))
    );
    assert_eq!(
        CsvOperation::new(Some("deposit".to_string()), None, None, amount).try_into(),
        Err(CsvParseError::MissingField("client".to_string()))
    );
    assert_eq!(
        CsvOperation::new(Some("deposit".to_string()), Some(1), None, amount).try_into(),
        Err(CsvParseError::MissingField("tx".to_string()))
    );
    assert_eq!(
        row("deposit", 1, 1, None).try_into(),
        Err(CsvParseError::MissingField("amount".to_string()))
    );
    assert_eq!(
        row("withdrawal", 1, 1, None).try_into(),
        Err(CsvParseError::MissingField("amount".to_string()))
    );
}

#[test]
fn row_with_a_negative_amount() {
    assert_eq!(
        row("deposit", 1, 1, Some(-1)).try_into(),
        Err(CsvParseError::NegativeAmount)
    );
    assert_eq!(
        row("withdrawal", 1, 1, Some(-1)).try_into(),
        Err(CsvParseError::NegativeAmount)
    );
    assert_eq!(
        row("dispute", 1, 1, Some(-1)).try_into(),
        Err(CsvParseError::NegativeAmount)
    );
    assert_eq!(
        row("transfer", 1, 1, Some(-1)).try_into(),
        Err(CsvParseError::NegativeAmount)
    );
    assert_eq!(
        row("deposit", 1, 1, Some(0)).try_into(),
        Ok(Operation::Deposit { acc_id: 1, tx_id: 1, amount: Decimal4::zero() })
    );
}

#[test]
fn row_of_an_unknown_kind() {
    assert_eq!(
        row("transfer", 1, 1, Some(1)).try_into(),
        Err(CsvParseError::InvalidType)
    );
    assert_eq!(row("", 1, 1, None).try_into(), Err(CsvParseError::InvalidType));
    assert_eq!(
        row("Deposit", 1, 1, Some(1)).try_into(),
        Err(CsvParseError::InvalidType)
    );
    assert_eq!(
        row("withdraw", 1, 1, Some(1)).try_into(),
        Err(CsvParseError::InvalidType)
    );
    assert_eq!(
        row("withdraw", 1, 1, None).try_into(),
        Err(CsvParseError::InvalidType)
    );
}

#[test]
fn row_of_a_dispute_passes_an_amount_over() {
    assert_eq!(
        row("dispute", 1, 2, Some(5)).try_into(),
        Ok(Operation::Dispute { acc_id: 1, tx_id: 2 })
    );
}

#[test]
fn report_row_of_an_account() {
    let mut account = Account::new(9);
    account.deposit(Decimal4::from_units(15_000)).unwrap();
    account.dispute(Decimal4::from_units(5_000)).unwrap();
    let report = CsvAccount::from(account);
    assert_eq!(report.client(), 9);
    assert_eq!(report.available().to_string(), "1.0000");
    assert_eq!(report.held().to_string(), "0.5000");
    assert_eq!(report.total().to_string(), "1.5000");
    assert!(!report.locked());
    account.chargeback(Decimal4::from_units(5_000)).unwrap();
    let report = CsvAccount::from(account);
    assert_eq!(report.total().to_string(), "1.0000");
    assert!(report.locked());
}

#[test]
fn report_row_needs_a_total_that_fits() {
    let most = Decimal4::from_units(i64::MAX);
    let account = Account::from_parts(1, most, Decimal4::from_units(1), false, 0);
    assert!(CsvAccount::checked_from(account).is_none());
    let account = Account::from_parts(1, most, Decimal4::from_units(-1), false, 0);
    let report = CsvAccount::checked_from(account).unwrap();
    assert_eq!(report.total(), Decimal4::from_units(i64::MAX - 1));
    assert_eq!(report.available(), most);
}

#[test]
fn rows_are_applied_one_by_one() {
    let mut engine: Engine<EchoDbStorage> = Engine::default();
    assert!(apply_row(&mut engine, row("deposit", 1, 1, Some(100))));
    assert!(apply_row(&mut engine, row("deposit", 2, 2, Some(50))));
    assert!(!apply_row(&mut engine, row("withdrawal", 1, 3, Some(500))));
    assert!(apply_row(&mut engine, row("withdrawal", 1, 3, Some(30))));
    assert!(!apply_row(&mut engine, row("transfer", 1, 4, Some(1))));
    assert!(!apply_row(&mut engine, row("deposit", 1, 5, None)));
    assert!(!apply_row(&mut engine, row("deposit", 1, 6, Some(0))));
    assert!(apply_row(&mut engine, row("dispute", 2, 2, None)));
    assert!(!apply_row(&mut engine, row("dispute", 1, 2, None)));
    assert!(apply_row(&mut engine, row("chargeback", 2, 2, None)));
    assert!(!apply_row(&mut engine, row("resolve", 2, 2, None)));
    assert!(apply_row(&mut engine, row("deposit", 1, 1, Some(100))));
    let first = engine.get_account(1).unwrap().unwrap();
    assert_eq!(first.available().to_string(), "70.0000");
    assert!(!first.locked());
    let second = engine.get_account(2).unwrap().unwrap();
    assert_eq!(second.total().to_string(), "0.0000");
    assert!(second.locked());
}

#[test]
fn rows_are_counted() {
    let mut engine: Engine<EchoDbStorage> = Engine::default();
    assert_eq!(apply_rows(&mut engine, Vec::new()), 0);
    let rows = vec![
        Some(row("deposit", 1, 1, Some(100))),
        None,
        Some(row("deposit", 2, 2, Some(50))),
        Some(row("withdrawal", 1, 3, Some(500))),
        Some(row("transfer", 1, 4, Some(1))),
        Some(row("withdrawal", 1, 5, Some(30))),
        Some(row("dispute", 2, 2, None)),
        None,
        Some(row("chargeback", 2, 2, None)),
        Some(row("deposit", 2, 6, Some(1))),
        Some(row("deposit", 1, 1, Some(100))),
    ];
    assert_eq!(apply_rows(&mut engine, rows), 6);
    let first = engine.get_account(1).unwrap().unwrap();
    assert_eq!(first.available().to_string(), "70.0000");
    let second = engine.get_account(2).unwrap().unwrap();
    assert_eq!(second.total().to_string(), "0.0000");
    assert!(second.locked());
    let rejected = vec![None, Some(row("resolve", 2, 2, None)), Some(row("dispute", 9, 9, None))];
    assert_eq!(apply_rows(&mut engine, rejected), 0);
    assert_eq!(engine.get_all_accounts().unwrap().len(), 2);
}

#[test]
fn row_is_read_without_being_given_away() {
    let read = row("deposit", 1, 2, Some(3));
    let expected = Ok(Operation::Deposit { acc_id: 1, tx_id: 2, amount: Decimal4::from(3) });
    assert_eq!(read.to_operation(), expected);
    assert_eq!(read.to_operation(), expected);
    assert_eq!(read.try_into(), expected);
}
