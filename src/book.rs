//! The book records: what a client sends, what is stored, and what is sent back.

use vstd::prelude::*;

use crate::book_id::{id_text_of_bytes, BookId};

verus! {

/// A stored book, as a mathematical value.
pub struct BookRecord {
    pub id: Seq<u8>,
    pub title: Seq<char>,
    pub author: Seq<char>,
    pub published_year: i32,
}

/// The fields of a book as a client sends them, without an identifier.
pub struct NewBook {
    pub title: String,
    pub author: String,
    pub published_year: i32,
}

impl NewBook {
    /// A book may be stored only with a title, an author and a positive year.
    pub open spec fn valid(&self) -> bool {
        self.title@.len() > 0 && self.author@.len() > 0 && self.published_year > 0
    }

    pub fn is_valid(&self) -> (r: bool)
        ensures
            r == self.valid(),
    {
        !self.title.as_str().is_empty() && !self.author.as_str().is_empty() && self.published_year
            > 0
    }
}

/// A stored book: the fields of a [`NewBook`] under an identifier.
#[derive(Debug)]
pub struct Book {
    pub id: BookId,
    pub title: String,
    pub author: String,
    pub published_year: i32,
}

impl View for Book {
    type V = BookRecord;

    open spec fn view(&self) -> BookRecord {
        BookRecord {
            id: self.id@,
            title: self.title@,
            author: self.author@,
            published_year: self.published_year,
        }
    }
}

/// The records of a sequence of books, in the same order.
pub open spec fn records_of(books: Seq<Book>) -> Seq<BookRecord> {
    books.map_values(|b: Book| b@)
}

impl Clone for Book {
    fn clone(&self) -> (r: Book)
        ensures
            r@ == self@,
    {
        Book {
            id: self.id,
            title: self.title.clone(),
            author: self.author.clone(),
            published_year: self.published_year,
        }
    }
}

impl Book {
    /// The book that stores `input` under `id`.
    pub fn from_new(id: BookId, input: NewBook) -> (r: Book)
        ensures
            r@ == (BookRecord {
                id: id@,
                title: input.title@,
                author: input.author@,
                published_year: input.published_year,
            }),
    {
        Book {
            id,
            title: input.title,
            author: input.author,
            published_year: input.published_year,
        }
    }
}

/// A book as it is sent back to a client: its identifier written out as text.
#[derive(Debug)]
pub struct BookResponse {
    pub id: String,
    pub title: String,
    pub author: String,
    pub published_year: i32,
}

impl BookResponse {
    /// Whether this response shows the book `b`.
    pub open spec fn shows(&self, b: BookRecord) -> bool {
        &&& self.id@ == id_text_of_bytes(b.id)
        &&& self.title@ == b.title
        &&& self.author@ == b.author
        &&& self.published_year == b.published_year
    }

    /// The response that shows `book`.
    pub fn from_book(book: Book) -> (r: BookResponse)
        ensures
            r.shows(book@),
    {
        BookResponse {
            id: book.id.to_text(),
            title: book.title,
            author: book.author,
            published_year: book.published_year,
        }
    }
}

} // verus!
