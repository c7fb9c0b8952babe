//! A hash-addressed naming registry and, layered on it, a whitelist-gated,
//! append-only ledger of businesses and product records.
//!
//! Every mutating operation checks all of its preconditions before it
//! touches any state, so a failed call leaves the whole state unchanged.

mod bytes;
pub mod hash;
pub mod store;
pub mod name_service;
pub mod business;
pub mod error;
