//! The classes into which every refusal of the library falls.

use vstd::prelude::*;

verus! {

/// The class of a refused operation.
#[derive(Clone, Copy, Debug, PartialEq, Eq, Structural)]
pub enum ErrorKind {
    /// A record that the operation needs does not exist.
    NotFound,
    /// The caller may not make the operation.
    Unauthorized,
    /// The record to be created exists already.
    AlreadyExists,
    /// An argument is outside its accepted bounds or inconsistent.
    InvalidInput,
    /// The new value equals the stored one.
    NoOpRejected,
    /// The business has reached its expiration height.
    Expired,
    /// A count has reached its bound.
    LimitExceeded,
    /// The acting identity is not on the business whitelist.
    NotWhitelisted,
}

} // verus!
