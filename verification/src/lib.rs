//! Accounting core of a fungible-token ledger with capped minting,
//! allowance-based delegated transfers, and per-holder vesting schedules
//! with cliffs and periodic release.
//!
//! The ledger state is an explicit value passed into every operation; the
//! host is responsible for persistence, authentication of the caller
//! address, and supplying the current time.

pub mod error;
pub mod token;
pub mod vesting;
pub mod balances;
pub mod allowances;
pub mod vesting_ledger;
pub mod ledger;
