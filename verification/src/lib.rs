//! A payments engine: exact four-digit money, per-client accounts that apply
//! deposits, withdrawals, disputes, resolutions and chargebacks, and a book of
//! accounts that can be exported as delimited text.
//!
//! The rules of an account are stated once, as a transition on a mathematical
//! state ([`model`]), and the executable account ([`client_accounts`]) is
//! proved to follow it. What holds of every account is proved in [`laws`].
//! Decimal arithmetic and text are left to `rust_decimal` ([`decimal`]), the
//! writing of delimited records to `csv` ([`csv_writer`]).

pub mod client_accounts;
pub mod csv_writer;
pub mod decimal;
pub mod laws;
pub mod model;
pub mod money;
pub mod snapshot;
pub mod transaction;
