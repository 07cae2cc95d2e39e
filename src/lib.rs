//! A book catalog service: book identifiers, validation, an in-memory book
//! collection, the catalog operations over it with their laws, the mapping
//! of every store outcome to a result and an HTTP status, and the state of a
//! browser form that saves books locally.

pub mod book_id;
pub mod book;
pub mod error;
pub mod store;
pub mod outcome;
pub mod service;
pub mod laws;
pub mod reply;
pub mod form;

pub use book::{Book, BookResponse, NewBook};
pub use book_id::BookId;
pub use error::ServiceError;
pub use form::{BookForm, Msg};
pub use reply::{index, Reply};
pub use service::{
    create_book, create_book_with_id, delete_all_books, delete_book, get_all_books,
    get_book_by_id, update_book,
};
pub use store::BookStore;
