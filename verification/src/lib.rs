//! A verified core for a personal-finance ledger: calendar recurrence,
//! scheduled-obligation validation and lifecycle, and balance aggregation.
//!
//! The library is pure: it never touches a database or the network. A caller
//! loads the rows it needs (accounts, categories, committed transactions and
//! transfers), hands them to the functions here as plain values, and persists
//! whatever the functions decide.

pub mod dates;
pub mod models;
pub mod recurrence;
pub mod schedule;
pub mod store;
pub mod lifecycle;
pub mod balance;
pub mod category;
pub mod transaction;
pub mod account;
pub mod views;
pub mod schedule_views;
pub mod transfer_schedules;
pub mod feed;
