//! A personal ledger: income and expense entries, a running balance, and
//! queries over the recorded entries.
//!
//! - [`transaction`] and [`error`] hold the entries and the errors.
//! - [`ledger`] holds the list of entries and its operations; [`laws`] states
//!   what holds of every ledger.
//! - [`currency`] and [`text`] write amounts and handle characters.
//! - [`input`] reads what a user typed, [`report`] writes what a user is
//!   shown, and [`shell`] decides what a menu choice asks for.

pub mod currency;
pub mod error;
pub mod input;
pub mod laws;
pub mod ledger;
pub mod report;
pub mod shell;
pub mod text;
pub mod transaction;
