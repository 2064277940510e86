//! Verified core of a PostgreSQL accounting-workload benchmark: calendar
//! periods, ledger documents and their postings, inventory valuation at
//! period close, workload generation and the bookkeeping of timing metrics.

pub mod decimal;
pub mod text;
pub mod period;
pub mod domain;
pub mod operation;
pub mod document;
pub mod ledger;
pub mod inventory;
pub mod workload;
pub mod config;
pub mod setup;
pub mod metrics;
pub mod dispatch;
pub mod records;
pub mod stats;
