//! Laws of the catalog operations, stated over their model functions. Each
//! operation's contract is an equation with its model function, so each law
//! holds of the operations themselves.

use vstd::prelude::*;

use crate::book::{BookRecord, NewBook};
use crate::book_id::{id_bytes_of_text, id_text_of_bytes, is_id_text, lemma_id_text_round_trip, ID_BYTES};
use crate::error::ServiceError;
use crate::service::{create_spec, delete_all_spec, delete_spec, get_spec, update_spec};
use crate::store::{has_id, ids_unique, lemma_position_unique, position_of};

verus! {

/// A valid book that was created is found again by the text of the identifier
/// it was given, with the title, author and year it was created with.
pub proof fn lemma_create_then_get(books: Seq<BookRecord>, input: NewBook, id: Seq<u8>)
    requires
        ids_unique(books),
        id.len() == ID_BYTES,
        input.valid(),
    ensures
        ({
            let (after, created) = create_spec(books, input, id);
            created matches Ok(b) ==> {
                &&& b.id == id
                &&& b.title == input.title@
                &&& b.author == input.author@
                &&& b.published_year == input.published_year
                &&& get_spec(after, id_text_of_bytes(b.id)) == Ok::<BookRecord, ServiceError>(b)
            }
        }),
{
    let (after, created) = create_spec(books, input, id);
    if created is Ok {
        let n = books.len() as int;
        assert forall|i: int, j: int|
            0 <= i < after.len() && 0 <= j < after.len() && i != j implies #[trigger] after[i].id
                != #[trigger] after[j].id by {
            if i == n {
                assert(books[j].id == after[j].id);
            } else if j == n {
                assert(books[i].id == after[i].id);
            } else {
                assert(books[i].id != books[j].id);
            }
        }
        lemma_position_unique(after, n);
        lemma_id_text_round_trip(id);
    }
}

/// A book with an empty title, an empty author or a year that is not
/// positive is refused by create and by update, and the collection stays as
/// it was.
pub proof fn lemma_invalid_book_refused(books: Seq<BookRecord>, input: NewBook, id: Seq<u8>, text: Seq<char>)
    requires
        !input.valid(),
    ensures
        create_spec(books, input, id) == (books, Err::<BookRecord, ServiceError>(ServiceError::Validation)),
        update_spec(books, text, input) == (books, Err::<(), ServiceError>(ServiceError::Validation)),
{
}

/// A well-formed identifier that no stored book has is not found by get,
/// update or delete, and the collection stays as it was.
pub proof fn lemma_absent_id_not_found(books: Seq<BookRecord>, text: Seq<char>, input: NewBook)
    requires
        is_id_text(text),
        !has_id(books, id_bytes_of_text(text)),
    ensures
        get_spec(books, text) == Err::<BookRecord, ServiceError>(ServiceError::NotFound),
        delete_spec(books, text) == (books, Err::<u64, ServiceError>(ServiceError::NotFound)),
        input.valid() ==> update_spec(books, text, input) == (
            books,
            Err::<(), ServiceError>(ServiceError::NotFound),
        ),
{
}

/// Text that is not an identifier is refused by get, update and delete as an
/// invalid identifier, which is not the same as not found.
pub proof fn lemma_malformed_id_refused(books: Seq<BookRecord>, text: Seq<char>, input: NewBook)
    requires
        !is_id_text(text),
    ensures
        get_spec(books, text) == Err::<BookRecord, ServiceError>(ServiceError::InvalidIdentifier),
        delete_spec(books, text) == (books, Err::<u64, ServiceError>(ServiceError::InvalidIdentifier)),
        input.valid() ==> update_spec(books, text, input) == (
            books,
            Err::<(), ServiceError>(ServiceError::InvalidIdentifier),
        ),
        ServiceError::InvalidIdentifier != ServiceError::NotFound,
{
}

/// Deleting by the same identifier twice: the second delete finds nothing and
/// changes nothing; where the first found nothing either, both report not found.
pub proof fn lemma_delete_twice(books: Seq<BookRecord>, text: Seq<char>)
    requires
        ids_unique(books),
        is_id_text(text),
    ensures
        ({
            let (once, first) = delete_spec(books, text);
            let (twice, second) = delete_spec(once, text);
            &&& second == Err::<u64, ServiceError>(ServiceError::NotFound)
            &&& twice == once
            &&& first is Err ==> first == second
        }),
{
    let id = id_bytes_of_text(text);
    if has_id(books, id) {
        let p = position_of(books, id);
        let once = books.remove(p);
        if has_id(once, id) {
            let k = choose|k: int| 0 <= k < once.len() && #[trigger] once[k].id == id;
            let k2 = if k < p { k } else { k + 1 };
            assert(once[k] == books[k2]);
            assert(books[p].id == id);
            assert(false);
        }
    }
}

/// Deleting all twice: the second delete removes nothing and reports a count of zero.
pub proof fn lemma_delete_all_twice(books: Seq<BookRecord>)
    ensures
        ({
            let (once, first) = delete_all_spec(books);
            let (twice, second) = delete_all_spec(once);
            &&& first == books.len()
            &&& twice == Seq::<BookRecord>::empty()
            &&& second == 0
        }),
{
}

} // verus!
