//! Bookkeeping core of a single-admin custodial vault.
//!
//! The record mirrors, in an integer counter, the value that an external
//! custody ledger holds on the vault's behalf. Every operation is split into
//! a pre-flight decision, which says which external transfer to issue, and a
//! settlement, which takes the transfer's outcome and updates the record.
use vstd::prelude::*;

pub mod guard;
pub mod vault;
pub mod laws;
