//! A small financial ledger engine: each account has a fixed overdraft limit
//! and a running balance; debits and credits must never push the balance
//! below `-limit`, and a statement reports the current balance together with
//! the account's most recent transactions.
//!
//! The crate verifies the balance-mutation protocol (validation, the
//! overdraft check, and the statement snapshot), the mapping of outcomes to
//! HTTP status codes, and the decision logic of the load generator that
//! exercises the service.

pub mod account;
pub mod domain;
pub mod laws;
pub mod ledger;
pub mod status;
pub mod workload;
