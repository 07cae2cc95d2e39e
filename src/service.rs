//! The catalog operations over an in-memory collection: create, get all, get
//! by identifier, update, delete and delete all. Each is stated by a model
//! function that gives the collection after the call and the result.

use vstd::prelude::*;

use crate::book::{records_of, Book, BookRecord, BookResponse, NewBook};
use crate::book_id::{id_bytes_of_text, is_id_text, BookId, ID_BYTES};
use crate::error::ServiceError;
use crate::outcome::{
    book_result, delete_outcome, find_outcome, insert_outcome, parse_book_id, responds,
    update_outcome, validate,
};
use crate::store::{has_id, lookup, position_of, with_fields, BookStore};

verus! {

/// The record that stores `input` under `id`.
pub open spec fn new_record(input: NewBook, id: Seq<u8>) -> BookRecord {
    BookRecord {
        id,
        title: input.title@,
        author: input.author@,
        published_year: input.published_year,
    }
}

/// Create: a valid book is stored under `id` unless that identifier is taken,
/// which the store reports as a failed insert.
pub open spec fn create_spec(books: Seq<BookRecord>, input: NewBook, id: Seq<u8>) -> (
    Seq<BookRecord>,
    Result<BookRecord, ServiceError>,
) {
    if !input.valid() {
        (books, Err(ServiceError::Validation))
    } else if has_id(books, id) {
        (books, Err(ServiceError::Store))
    } else {
        (books.push(new_record(input, id)), Ok(new_record(input, id)))
    }
}

/// Get by identifier: the book the identifier text names.
pub open spec fn get_spec(books: Seq<BookRecord>, text: Seq<char>) -> Result<BookRecord, ServiceError> {
    if !is_id_text(text) {
        Err(ServiceError::InvalidIdentifier)
    } else {
        match lookup(books, id_bytes_of_text(text)) {
            Some(b) => Ok(b),
            None => Err(ServiceError::NotFound),
        }
    }
}

/// Update: the fields of the book the identifier text names are replaced by
/// those of a valid `input`; no book is ever added.
pub open spec fn update_spec(books: Seq<BookRecord>, text: Seq<char>, input: NewBook) -> (
    Seq<BookRecord>,
    Result<(), ServiceError>,
) {
    if !input.valid() {
        (books, Err(ServiceError::Validation))
    } else if !is_id_text(text) {
        (books, Err(ServiceError::InvalidIdentifier))
    } else if !has_id(books, id_bytes_of_text(text)) {
        (books, Err(ServiceError::NotFound))
    } else {
        let i = position_of(books, id_bytes_of_text(text));
        (
            books.update(
                i,
                with_fields(books[i], input.title@, input.author@, input.published_year),
            ),
            Ok(()),
        )
    }
}

/// Delete: the book the identifier text names is removed, a count of one.
pub open spec fn delete_spec(books: Seq<BookRecord>, text: Seq<char>) -> (
    Seq<BookRecord>,
    Result<u64, ServiceError>,
) {
    if !is_id_text(text) {
        (books, Err(ServiceError::InvalidIdentifier))
    } else if !has_id(books, id_bytes_of_text(text)) {
        (books, Err(ServiceError::NotFound))
    } else {
        (books.remove(position_of(books, id_bytes_of_text(text))), Ok(1u64))
    }
}

/// Delete all: nothing is left, and the count is the number there was.
pub open spec fn delete_all_spec(books: Seq<BookRecord>) -> (Seq<BookRecord>, nat) {
    (Seq::empty(), books.len())
}

/// Stores `book` under `id`, after checking it.
pub fn create_book_with_id(store: &mut BookStore, book: NewBook, id: BookId) -> (r: Result<Book, ServiceError>)
    requires
        old(store).wf(),
    ensures
        final(store).wf(),
        (final(store)@, book_result(r)) == create_spec(old(store)@, book, id@),
{
    if let Err(e) = validate(&book) {
        return Err(e);
    }
    let ghost expected = new_record(book, id@);
    let stored = Book::from_new(id, book);
    assert(stored@ == expected);
    let copy = stored.clone();
    let inserted = store.insert_one(copy);
    insert_outcome(stored, inserted)
}

/// Stores `book` under a new identifier from the store's generator, after
/// checking it. Whatever identifier came, the call is a create under it.
pub fn create_book(store: &mut BookStore, book: NewBook) -> (r: Result<Book, ServiceError>)
    requires
        old(store).wf(),
    ensures
        final(store).wf(),
        exists|id: Seq<u8>|
            id.len() == ID_BYTES && (final(store)@, book_result(r)) == #[trigger] create_spec(
                old(store)@,
                book,
                id,
            ),
{
    let ghost input = book;
    let id = BookId::generate();
    let r = create_book_with_id(store, book, id);
    assert(id@.len() == ID_BYTES);
    assert((final(store)@, book_result(r)) == create_spec(old(store)@, input, id@));
    r
}

/// Every stored book, in the order in which the collection holds them.
pub fn get_all_books(store: &BookStore) -> (r: Vec<BookResponse>)
    ensures
        r@.len() == store@.len(),
        forall|i: int| 0 <= i < r@.len() ==> #[trigger] r@[i].shows(store@[i]),
{
    let books = store.find_all();
    let mut r: Vec<BookResponse> = Vec::new();
    let mut i: usize = 0;
    while i < books.len()
        invariant
            0 <= i <= books@.len(),
            records_of(books@) == store@,
            r@.len() == i,
            forall|j: int| 0 <= j < i ==> #[trigger] r@[j].shows(store@[j]),
        decreases books@.len() - i,
    {
        assert(books@[i as int]@ == store@[i as int]);
        r.push(BookResponse::from_book(books[i].clone()));
        i = i + 1;
    }
    r
}

/// The stored book the identifier text names.
pub fn get_book_by_id(store: &BookStore, id: &str) -> (r: Result<BookResponse, ServiceError>)
    requires
        store.wf(),
    ensures
        responds(r, get_spec(store@, id@)),
{
    let oid = match parse_book_id(id) {
        Ok(oid) => oid,
        Err(e) => return Err(e),
    };
    find_outcome(store.find_one(&oid))
}

/// Replaces the title, author and year of the book the identifier text names.
pub fn update_book(store: &mut BookStore, id: &str, book: NewBook) -> (r: Result<(), ServiceError>)
    requires
        old(store).wf(),
    ensures
        final(store).wf(),
        (final(store)@, r) == update_spec(old(store)@, id@, book),
{
    if let Err(e) = validate(&book) {
        return Err(e);
    }
    let oid = match parse_book_id(id) {
        Ok(oid) => oid,
        Err(e) => return Err(e),
    };
    let matched = store.update_one(&oid, book.title, book.author, book.published_year);
    update_outcome(matched)
}

/// Removes the book the identifier text names.
pub fn delete_book(store: &mut BookStore, id: &str) -> (r: Result<u64, ServiceError>)
    requires
        old(store).wf(),
    ensures
        final(store).wf(),
        (final(store)@, r) == delete_spec(old(store)@, id@),
{
    let oid = match parse_book_id(id) {
        Ok(oid) => oid,
        Err(e) => return Err(e),
    };
    let deleted = store.delete_one(&oid);
    delete_outcome(deleted)
}

/// Removes every book and gives the number removed.
pub fn delete_all_books(store: &mut BookStore) -> (r: u64)
    requires
        old(store).wf(),
    ensures
        final(store).wf(),
        (final(store)@, r as nat) == delete_all_spec(old(store)@),
{
    store.delete_many()
}

} // verus!
