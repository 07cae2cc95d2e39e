//! The decisions of a catalog operation that do not depend on where the books
//! are kept: checking what the client sent, and turning what the store
//! reported into the operation's result.

use vstd::prelude::*;

use crate::book::{Book, BookRecord, BookResponse, NewBook};
use crate::book_id::{id_bytes_of_text, is_id_text, BookId};
use crate::error::ServiceError;

verus! {

/// What a client sees of an operation whose result, in the model, is `o`.
pub open spec fn responds(r: Result<BookResponse, ServiceError>, o: Result<BookRecord, ServiceError>) -> bool {
    match (r, o) {
        (Ok(a), Ok(b)) => a.shows(b),
        (Err(e1), Err(e2)) => e1 == e2,
        _ => false,
    }
}

/// The model of a result that carries a book.
pub open spec fn book_result(r: Result<Book, ServiceError>) -> Result<BookRecord, ServiceError> {
    match r {
        Ok(b) => Ok(b@),
        Err(e) => Err(e),
    }
}

/// Accepts a book with a title, an author and a positive year; rejects any
/// other before the store is touched.
pub fn validate(input: &NewBook) -> (r: Result<(), ServiceError>)
    ensures
        r is Ok <==> input.valid(),
        r matches Err(e) ==> e == ServiceError::Validation,
{
    if input.is_valid() {
        Ok(())
    } else {
        Err(ServiceError::Validation)
    }
}

/// Reads the identifier a client gave; text that is not an identifier is an
/// `InvalidIdentifier`, never a `NotFound`.
pub fn parse_book_id(text: &str) -> (r: Result<BookId, ServiceError>)
    ensures
        r is Ok <==> is_id_text(text@),
        r matches Ok(id) ==> id@ == id_bytes_of_text(text@),
        r matches Err(e) ==> e == ServiceError::InvalidIdentifier,
{
    match BookId::parse(text) {
        Some(id) => Ok(id),
        None => Err(ServiceError::InvalidIdentifier),
    }
}

/// The result of an insert that the store did (`true`) or did not carry out.
pub fn insert_outcome(book: Book, inserted: bool) -> (r: Result<Book, ServiceError>)
    ensures
        inserted ==> book_result(r) == Ok::<BookRecord, ServiceError>(book@),
        !inserted ==> r == Err::<Book, ServiceError>(ServiceError::Store),
{
    if inserted {
        Ok(book)
    } else {
        Err(ServiceError::Store)
    }
}

/// The result of a lookup by identifier that found `found`.
pub fn find_outcome(found: Option<Book>) -> (r: Result<BookResponse, ServiceError>)
    ensures
        found is None ==> r == Err::<BookResponse, ServiceError>(ServiceError::NotFound),
        found matches Some(b) ==> responds(r, Ok(b@)),
{
    match found {
        Some(b) => Ok(BookResponse::from_book(b)),
        None => Err(ServiceError::NotFound),
    }
}

/// The result of an update that matched `matched` books.
pub fn update_outcome(matched: u64) -> (r: Result<(), ServiceError>)
    ensures
        matched > 0 ==> r == Ok::<(), ServiceError>(()),
        matched == 0 ==> r == Err::<(), ServiceError>(ServiceError::NotFound),
{
    if matched > 0 {
        Ok(())
    } else {
        Err(ServiceError::NotFound)
    }
}

/// The result of a delete by identifier that removed `deleted` books.
pub fn delete_outcome(deleted: u64) -> (r: Result<u64, ServiceError>)
    ensures
        deleted > 0 ==> r == Ok::<u64, ServiceError>(deleted),
        deleted == 0 ==> r == Err::<u64, ServiceError>(ServiceError::NotFound),
{
    if deleted > 0 {
        Ok(deleted)
    } else {
        Err(ServiceError::NotFound)
    }
}

} // verus!
