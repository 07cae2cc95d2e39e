//! An in-memory book collection with the operations of a document store:
//! insert, find one, find all, update one, delete one and delete all, each
//! keyed by the book's identifier.

use vstd::prelude::*;

use crate::book::{records_of, Book, BookRecord};
use crate::book_id::BookId;

verus! {

/// Whether some book in `books` has the identifier `id`.
pub open spec fn has_id(books: Seq<BookRecord>, id: Seq<u8>) -> bool {
    exists|i: int| 0 <= i < books.len() && #[trigger] books[i].id == id
}

/// Whether no two books in `books` share an identifier.
pub open spec fn ids_unique(books: Seq<BookRecord>) -> bool {
    forall|i: int, j: int|
        0 <= i < books.len() && 0 <= j < books.len() && i != j ==> #[trigger] books[i].id
            != #[trigger] books[j].id
}

/// Where the book with identifier `id` stands in `books`, if some book has it.
pub open spec fn position_of(books: Seq<BookRecord>, id: Seq<u8>) -> int {
    choose|i: int| 0 <= i < books.len() && #[trigger] books[i].id == id
}

/// The book with identifier `id`, if `books` holds one.
pub open spec fn lookup(books: Seq<BookRecord>, id: Seq<u8>) -> Option<BookRecord> {
    if has_id(books, id) {
        Some(books[position_of(books, id)])
    } else {
        None
    }
}

/// In a collection with unique identifiers, the book at `i` is the one its identifier finds.
pub proof fn lemma_position_unique(books: Seq<BookRecord>, i: int)
    requires
        ids_unique(books),
        0 <= i < books.len(),
    ensures
        has_id(books, books[i].id),
        position_of(books, books[i].id) == i,
        lookup(books, books[i].id) == Some(books[i]),
{
    assert(books[i].id == books[i].id);
}

/// The book `b` with its title, author and year replaced.
pub open spec fn with_fields(b: BookRecord, title: Seq<char>, author: Seq<char>, year: i32) -> BookRecord {
    BookRecord { id: b.id, title, author, published_year: year }
}

/// A collection of books, no two with the same identifier.
pub struct BookStore {
    books: Vec<Book>,
}

impl View for BookStore {
    type V = Seq<BookRecord>;

    closed spec fn view(&self) -> Seq<BookRecord> {
        records_of(self.books@)
    }
}

impl BookStore {
    pub open spec fn wf(&self) -> bool {
        ids_unique(self@)
    }

    /// An empty collection.
    pub fn new() -> (r: BookStore)
        ensures
            r.wf(),
            r@ == Seq::<BookRecord>::empty(),
    {
        let r = BookStore { books: Vec::new() };
        assert(r@ =~= Seq::<BookRecord>::empty());
        r
    }

    /// The number of books held.
    pub fn len(&self) -> (r: usize)
        ensures
            r == self@.len(),
    {
        self.books.len()
    }

    /// Where the book with identifier `id` stands, if there is one.
    fn position(&self, id: &BookId) -> (r: Option<usize>)
        requires
            self.wf(),
        ensures
            r is None <==> !has_id(self@, id@),
            r matches Some(i) ==> i < self@.len() && i == position_of(self@, id@),
    {
        let mut i: usize = 0;
        while i < self.books.len()
            invariant
                0 <= i <= self.books.len(),
                self@.len() == self.books.len(),
                self.wf(),
                forall|j: int| 0 <= j < i ==> self@[j].id != id@,
            decreases self.books.len() - i,
        {
            assert(self@[i as int] == self.books[i as int]@);
            if self.books[i].id.same_as(id) {
                proof {
                    lemma_position_unique(self@, i as int);
                }
                return Some(i);
            }
            i = i + 1;
        }
        None
    }

    /// Adds `book`, unless a book with its identifier is held already; the
    /// result says whether it was added.
    pub fn insert_one(&mut self, book: Book) -> (r: bool)
        requires
            old(self).wf(),
        ensures
            final(self).wf(),
            r == !has_id(old(self)@, book.id@),
            r ==> final(self)@ == old(self)@.push(book@),
            !r ==> final(self)@ == old(self)@,
    {
        match self.position(&book.id) {
            Some(_) => false,
            None => {
                let ghost rec = book@;
                self.books.push(book);
                assert(self@ =~= old(self)@.push(rec));
                true
            },
        }
    }

    /// A copy of the book with identifier `id`, if one is held.
    pub fn find_one(&self, id: &BookId) -> (r: Option<Book>)
        requires
            self.wf(),
        ensures
            r is Some <==> lookup(self@, id@) is Some,
            r matches Some(b) ==> lookup(self@, id@) == Some(b@),
    {
        match self.position(id) {
            Some(i) => Some(self.books[i].clone()),
            None => None,
        }
    }

    /// Copies of all the books, in the order in which they are held.
    pub fn find_all(&self) -> (r: Vec<Book>)
        ensures
            records_of(r@) == self@,
    {
        let mut r: Vec<Book> = Vec::new();
        let mut i: usize = 0;
        while i < self.books.len()
            invariant
                0 <= i <= self.books.len(),
                self@.len() == self.books.len(),
                r@.len() == i,
                records_of(r@) == self@.subrange(0, i as int),
            decreases self.books.len() - i,
        {
            let b = self.books[i].clone();
            assert(b@ == self@[i as int]);
            let ghost before = r@;
            r.push(b);
            assert(r@ == before.push(b));
            i = i + 1;
            assert(records_of(r@) =~= self@.subrange(0, i as int)) by {
                assert forall|j: int| 0 <= j < i implies #[trigger] records_of(r@)[j]
                    == self@[j] by {
                    if j < i - 1 {
                        assert(r@[j] == before[j]);
                        assert(records_of(before)[j] == self@.subrange(0, i - 1)[j]);
                    }
                }
            }
        }
        assert(self@.subrange(0, i as int) =~= self@);
        r
    }

    /// Replaces the title, author and year of the book with identifier `id`;
    /// the result is the number of books that matched, one or none.
    pub fn update_one(&mut self, id: &BookId, title: String, author: String, year: i32) -> (r: u64)
        requires
            old(self).wf(),
        ensures
            final(self).wf(),
            r == (if has_id(old(self)@, id@) { 1u64 } else { 0u64 }),
            has_id(old(self)@, id@) ==> final(self)@ == old(self)@.update(
                position_of(old(self)@, id@),
                with_fields(old(self)@[position_of(old(self)@, id@)], title@, author@, year),
            ),
            !has_id(old(self)@, id@) ==> final(self)@ == old(self)@,
    {
        match self.position(id) {
            Some(i) => {
                let ghost rec = with_fields(self@[i as int], title@, author@, year);
                let bid = self.books[i].id;
                let book = Book { id: bid, title, author, published_year: year };
                assert(book@ == rec);
                self.books.set(i, book);
                assert(self@ =~= old(self)@.update(i as int, rec));
                assert forall|a: int, b: int|
                    0 <= a < self@.len() && 0 <= b < self@.len() && a != b implies #[trigger] self@[a].id
                        != #[trigger] self@[b].id by {
                    assert(old(self)@[a].id != old(self)@[b].id);
                }
                1
            },
            None => 0,
        }
    }

    /// Removes the book with identifier `id`; the result is the number of
    /// books removed, one or none.
    pub fn delete_one(&mut self, id: &BookId) -> (r: u64)
        requires
            old(self).wf(),
        ensures
            final(self).wf(),
            r == (if has_id(old(self)@, id@) { 1u64 } else { 0u64 }),
            has_id(old(self)@, id@) ==> final(self)@ == old(self)@.remove(position_of(old(self)@, id@)),
            !has_id(old(self)@, id@) ==> final(self)@ == old(self)@,
    {
        match self.position(id) {
            Some(i) => {
                self.books.remove(i);
                assert(self@ =~= old(self)@.remove(i as int));
                assert forall|a: int, b: int|
                    0 <= a < self@.len() && 0 <= b < self@.len() && a != b implies #[trigger] self@[a].id
                        != #[trigger] self@[b].id by {
                    let oa = if a < i { a } else { a + 1 };
                    let ob = if b < i { b } else { b + 1 };
                    assert(self@[a] == old(self)@[oa]);
                    assert(self@[b] == old(self)@[ob]);
                }
                1
            },
            None => 0,
        }
    }

    /// Removes every book; the result is the number removed.
    pub fn delete_many(&mut self) -> (r: u64)
        requires
            old(self).wf(),
        ensures
            final(self).wf(),
            final(self)@ == Seq::<BookRecord>::empty(),
            r == old(self)@.len(),
    {
        let n = self.books.len();
        self.books.clear();
        assert(self@ =~= Seq::<BookRecord>::empty());
        n as u64
    }
}

} // verus!
