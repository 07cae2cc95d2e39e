use book_service::outcome::{
    delete_outcome, find_outcome, insert_outcome, parse_book_id, update_outcome, validate,
};
use book_service::reply::{error_reply, CREATED, OK};
use book_service::{
    create_book, create_book_with_id, delete_all_books, delete_book, get_all_books,
    get_book_by_id, index, update_book, Book, BookId, BookResponse, BookStore, NewBook,
    ServiceError,
};

fn new_book(title: &str, author: &str, year: i32) -> NewBook {
    NewBook { title: title.to_string(), author: author.to_string(), published_year: year }
}

fn fixed_id(last: u8) -> BookId {
    let mut bytes = [0u8; 12];
    bytes[11] = last;
    BookId { bytes }
}

fn snapshot(store: &BookStore) -> Vec<(String, String, String, i32)> {
    get_all_books(store)
        .into_iter()
        .map(|r: BookResponse| (r.id, r.title, r.author, r.published_year))
        .collect()
}

#[test]
fn dune_scenario() {
    let mut store = BookStore::new();
    let created = create_book(&mut store, new_book("Dune", "Herbert", 1965)).unwrap();
    let id = created.id.to_text();
    assert!(!id.is_empty());
    assert_eq!(id.len(), 24);
    assert_eq!(CREATED, 201);

    let all = get_all_books(&store);
    assert_eq!(all.len(), 1);
    assert_eq!(all[0].id, id);
    assert_eq!(all[0].title, "Dune");
    assert_eq!(all[0].author, "Herbert");
    assert_eq!(all[0].published_year, 1965);

    let updated = update_book(&mut store, &id, new_book("Dune Messiah", "Herbert", 1969));
    assert_eq!(updated, Ok(()));
    assert_eq!(OK, 200);

    let got = get_book_by_id(&store, &id).unwrap();
    assert_eq!(got.title, "Dune Messiah");
    assert_eq!(got.published_year, 1969);

    assert_eq!(delete_book(&mut store, &id), Ok(1));
    let gone = get_book_by_id(&store, &id);
    assert!(matches!(gone, Err(ServiceError::NotFound)));
    assert_eq!(ServiceError::NotFound.status_code(), 404);
}

#[test]
fn create_then_get_gives_same_fields() {
    let mut store = BookStore::new();
    let inputs = [("A", "B", 1), ("Title", "Author", 2024), ("x", "y", i32::MAX)];
    let mut ids = Vec::new();
    for (t, a, y) in inputs.iter() {
        let b = create_book(&mut store, new_book(t, a, *y)).unwrap();
        assert_eq!(b.title, *t);
        assert_eq!(b.author, *a);
        assert_eq!(b.published_year, *y);
        ids.push(b.id.to_text());
    }
    for ((t, a, y), id) in inputs.iter().zip(ids.iter()) {
        let r = get_book_by_id(&store, id).unwrap();
        assert_eq!(&r.id, id);
        assert_eq!(r.title, *t);
        assert_eq!(r.author, *a);
        assert_eq!(r.published_year, *y);
    }
}

#[test]
fn invalid_book_is_refused_and_nothing_changes() {
    let mut store = BookStore::new();
    let kept = create_book(&mut store, new_book("Dune", "Herbert", 1965)).unwrap();
    let id = kept.id.to_text();
    let before = snapshot(&store);
    let bad = [("", "Herbert", 1965), ("Dune", "", 1965), ("Dune", "Herbert", 0), ("Dune", "Herbert", -5)];
    for (t, a, y) in bad.iter() {
        let c = create_book(&mut store, new_book(t, a, *y));
        assert!(matches!(c, Err(ServiceError::Validation)));
        let u = update_book(&mut store, &id, new_book(t, a, *y));
        assert_eq!(u, Err(ServiceError::Validation));
        assert_eq!(snapshot(&store), before);
    }
    assert_eq!(ServiceError::Validation.status_code(), 400);
}

#[test]
fn absent_identifier_is_not_found() {
    let mut store = BookStore::new();
    create_book(&mut store, new_book("Dune", "Herbert", 1965)).unwrap();
    let before = snapshot(&store);
    let absent = "000000000000000000000000";
    assert!(matches!(get_book_by_id(&store, absent), Err(ServiceError::NotFound)));
    assert_eq!(update_book(&mut store, absent, new_book("T", "A", 1)), Err(ServiceError::NotFound));
    assert_eq!(delete_book(&mut store, absent), Err(ServiceError::NotFound));
    assert_eq!(snapshot(&store), before);
}

#[test]
fn malformed_identifier_is_invalid() {
    let mut store = BookStore::new();
    create_book(&mut store, new_book("Dune", "Herbert", 1965)).unwrap();
    let malformed = ["", "abc", "zzzzzzzzzzzzzzzzzzzzzzzz", "0000000000000000000000000", "00000000000000000000000g", "00000000000000000000000é"];
    for text in malformed.iter() {
        assert!(matches!(get_book_by_id(&store, text), Err(ServiceError::InvalidIdentifier)));
        assert_eq!(update_book(&mut store, text, new_book("T", "A", 1)), Err(ServiceError::InvalidIdentifier));
        assert_eq!(delete_book(&mut store, text), Err(ServiceError::InvalidIdentifier));
    }
    assert_ne!(ServiceError::InvalidIdentifier, ServiceError::NotFound);
    assert_eq!(ServiceError::InvalidIdentifier.status_code(), 400);
    assert_eq!(get_all_books(&store).len(), 1);
}

#[test]
fn delete_twice_is_not_found_the_second_time() {
    let mut store = BookStore::new();
    let b = create_book(&mut store, new_book("Dune", "Herbert", 1965)).unwrap();
    let id = b.id.to_text();
    assert_eq!(delete_book(&mut store, &id), Ok(1));
    assert_eq!(delete_book(&mut store, &id), Err(ServiceError::NotFound));
    let absent = "ffffffffffffffffffffffff";
    assert_eq!(delete_book(&mut store, absent), Err(ServiceError::NotFound));
    assert_eq!(delete_book(&mut store, absent), Err(ServiceError::NotFound));
}

#[test]
fn delete_all_twice_counts_zero_the_second_time() {
    let mut store = BookStore::new();
    for i in 1..4 {
        create_book(&mut store, new_book("T", "A", i)).unwrap();
    }
    assert_eq!(delete_all_books(&mut store), 3);
    assert_eq!(delete_all_books(&mut store), 0);
    assert!(get_all_books(&store).is_empty());
}

#[test]
fn delete_all_on_empty_store_counts_zero() {
    let mut store = BookStore::new();
    assert_eq!(delete_all_books(&mut store), 0);
    assert_eq!(store.len(), 0);
}

#[test]
fn get_all_on_empty_store_is_empty() {
    let store = BookStore::new();
    assert!(get_all_books(&store).is_empty());
}

#[test]
fn create_under_a_taken_identifier_is_a_store_error() {
    let mut store = BookStore::new();
    let first = create_book_with_id(&mut store, new_book("A", "B", 1), fixed_id(7)).unwrap();
    assert_eq!(first.id.to_text(), "000000000000000000000007");
    let again = create_book_with_id(&mut store, new_book("C", "D", 2), fixed_id(7));
    assert!(matches!(again, Err(ServiceError::Store)));
    assert_eq!(ServiceError::Store.status_code(), 500);
    assert_eq!(store.len(), 1);
    let r = get_book_by_id(&store, "000000000000000000000007").unwrap();
    assert_eq!(r.title, "A");
}

#[test]
fn update_replaces_only_the_named_book() {
    let mut store = BookStore::new();
    create_book_with_id(&mut store, new_book("A", "B", 1), fixed_id(1)).unwrap();
    create_book_with_id(&mut store, new_book("C", "D", 2), fixed_id(2)).unwrap();
    assert_eq!(update_book(&mut store, "000000000000000000000002", new_book("E", "F", 3)), Ok(()));
    let all = get_all_books(&store);
    assert_eq!(all.len(), 2);
    assert_eq!((all[0].title.as_str(), all[0].published_year), ("A", 1));
    assert_eq!((all[1].title.as_str(), all[1].author.as_str(), all[1].published_year), ("E", "F", 3));
    assert_eq!(all[1].id, "000000000000000000000002");
}

#[test]
fn generated_identifiers_differ() {
    let a = BookId::generate();
    let b = BookId::generate();
    assert!(!a.same_as(&b));
    assert!(a.same_as(&a));
}

#[test]
fn identifier_text_reads_either_case_and_writes_lower_case() {
    let id = BookId::parse("0123456789ABCDEFabcdef01").unwrap();
    assert_eq!(id.bytes, [0x01, 0x23, 0x45, 0x67, 0x89, 0xab, 0xcd, 0xef, 0xab, 0xcd, 0xef, 0x01]);
    assert_eq!(id.to_text(), "0123456789abcdefabcdef01");
    let again = BookId::parse(&id.to_text()).unwrap();
    assert!(again.same_as(&id));
    assert!(BookId::parse("0123456789abcdefabcdef0").is_none());
}

#[test]
fn parse_book_id_maps_to_invalid_identifier() {
    assert!(matches!(parse_book_id("nope"), Err(ServiceError::InvalidIdentifier)));
    let id = parse_book_id("00000000000000000000000a").unwrap();
    assert_eq!(id.bytes[11], 10);
}

#[test]
fn validate_checks_every_field() {
    assert_eq!(validate(&new_book("T", "A", 1)), Ok(()));
    assert_eq!(validate(&new_book("", "A", 1)), Err(ServiceError::Validation));
    assert_eq!(validate(&new_book("T", "", 1)), Err(ServiceError::Validation));
    assert_eq!(validate(&new_book("T", "A", 0)), Err(ServiceError::Validation));
    assert!(new_book("T", "A", 1).is_valid());
}

#[test]
fn store_outcomes_map_to_results() {
    assert_eq!(update_outcome(0), Err(ServiceError::NotFound));
    assert_eq!(update_outcome(1), Ok(()));
    assert_eq!(delete_outcome(0), Err(ServiceError::NotFound));
    assert_eq!(delete_outcome(2), Ok(2));
    assert!(matches!(find_outcome(None), Err(ServiceError::NotFound)));
    let found = find_outcome(Some(Book {
        id: fixed_id(255),
        title: "T".to_string(),
        author: "A".to_string(),
        published_year: 9,
    }))
    .unwrap();
    assert_eq!(found.id, "0000000000000000000000ff");
    assert_eq!(found.title, "T");
    let book = Book { id: fixed_id(1), title: "T".to_string(), author: "A".to_string(), published_year: 9 };
    assert!(matches!(insert_outcome(book.clone(), false), Err(ServiceError::Store)));
    let kept = insert_outcome(book, true).unwrap();
    assert_eq!(kept.published_year, 9);
}

#[test]
fn replies_carry_status_and_message() {
    let r = index();
    assert_eq!(r.status, 400);
    assert_eq!(r.body, "please specify the operation");
    let e = error_reply(ServiceError::NotFound);
    assert_eq!((e.status, e.body.as_str()), (404, "Book not found"));
    let e = error_reply(ServiceError::InvalidIdentifier);
    assert_eq!((e.status, e.body.as_str()), (400, "Invalid ObjectId format"));
    let e = error_reply(ServiceError::Validation);
    assert_eq!((e.status, e.body.as_str()), (400, "Invalid input data"));
    let e = error_reply(ServiceError::Store);
    assert_eq!(e.status, 500);
}
