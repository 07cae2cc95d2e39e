//! The HTTP replies of the catalog: a status and a plain-text body.

use vstd::prelude::*;

use crate::error::{status_of, ServiceError};

verus! {

/// The status of a successful create.
pub const CREATED: u16 = 201;

/// The status of any other successful operation.
pub const OK: u16 = 200;

/// A status and a body.
#[derive(Debug)]
pub struct Reply {
    pub status: u16,
    pub body: String,
}

/// The reply to a request that names no operation.
pub fn index() -> (r: Reply)
    ensures
        r.status == 400,
        r.body@ == "please specify the operation"@,
{
    Reply { status: 400, body: String::from_str("please specify the operation") }
}

/// The body that reports `e`.
pub open spec fn message_of(e: ServiceError) -> Seq<char> {
    match e {
        ServiceError::Validation => "Invalid input data"@,
        ServiceError::InvalidIdentifier => "Invalid ObjectId format"@,
        ServiceError::NotFound => "Book not found"@,
        ServiceError::Store => "Failed to access the book store"@,
    }
}

/// The reply that reports `e`.
pub fn error_reply(e: ServiceError) -> (r: Reply)
    ensures
        r.status == status_of(e),
        r.body@ == message_of(e),
{
    let body = match e {
        ServiceError::Validation => String::from_str("Invalid input data"),
        ServiceError::InvalidIdentifier => String::from_str("Invalid ObjectId format"),
        ServiceError::NotFound => String::from_str("Book not found"),
        ServiceError::Store => String::from_str("Failed to access the book store"),
    };
    Reply { status: e.status_code(), body }
}

} // verus!
