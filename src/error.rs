//! What can go wrong in a catalog operation, and the HTTP status of each.

use vstd::prelude::*;

verus! {

/// Why a catalog operation did not succeed.
#[derive(Clone, Copy, Debug, PartialEq, Eq, Structural)]
pub enum ServiceError {
    /// The book sent has an empty title or author, or a year that is not positive.
    Validation,
    /// The identifier text is not twenty-four hexadecimal digits.
    InvalidIdentifier,
    /// No stored book has the identifier.
    NotFound,
    /// The store failed to carry out the operation.
    Store,
}

/// The HTTP status that reports `e`: a client error for what the client
/// sent, not found, or a server error for a failed store.
pub open spec fn status_of(e: ServiceError) -> u16 {
    match e {
        ServiceError::Validation => 400,
        ServiceError::InvalidIdentifier => 400,
        ServiceError::NotFound => 404,
        ServiceError::Store => 500,
    }
}

impl ServiceError {
    /// The HTTP status that reports this error.
    pub fn status_code(&self) -> (r: u16)
        ensures
            r == status_of(*self),
    {
        match self {
            ServiceError::Validation => 400,
            ServiceError::InvalidIdentifier => 400,
            ServiceError::NotFound => 404,
            ServiceError::Store => 500,
        }
    }
}

} // verus!
