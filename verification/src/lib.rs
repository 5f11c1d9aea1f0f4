//! A verified transaction engine for client asset accounts: deposits,
//! withdrawals, and the dispute / resolve / chargeback lifecycle.
use vstd::prelude::*;

pub mod amount;
pub mod domain;
pub mod engine_core;
pub mod csv_row;
pub mod parse;
pub mod parse_error;
pub mod account_row;
pub mod report;
