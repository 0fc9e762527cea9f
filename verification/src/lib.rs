//! A ledger of client accounts driven by deposits, withdrawals and the
//! dispute workflow (dispute, resolve, chargeback).
//!
//! Amounts are fixed-point numbers with four fractional digits
//! ([`decimal::Decimal4`]). Accounts ([`account`]) and transactions
//! ([`transaction`]) are plain aggregates with a version counter. The
//! [`engine::Engine`] applies one operation per unit of work of a
//! [`storage::Storage`], and writes what [`plan`] makes of what it read;
//! [`storage::EchoDbStorage`] is such a store, kept in
//! memory, with its records encoded as [`record`] says. [`ledger`] holds the
//! mathematical model that the contracts of store and engine are stated in,
//! and [`laws`] what is proved of it. [`csv_parser`] turns the rows of an
//! operation stream into operations and accounts into rows of a report.

pub mod account;
pub mod csv_parser;
pub mod decimal;
pub mod engine;
pub mod laws;
pub mod ledger;
pub mod plan;
pub mod record;
pub mod storage;
pub mod transaction;
