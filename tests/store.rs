use book_lib::book::Book;
use book_lib::db;
use book_lib::errors::{
    CreateBookError, GetBookError, GetBooksError, OpenBookError, RemoveBookError, UpdateFavouriteError,
};
use book_lib::{create_book, get_book, get_books, remove_book, update_favourite};
use rusqlite::Connection;

fn store() -> Connection {
    let conn = Connection::open_in_memory().unwrap();
    assert_eq!(db::create_table(&conn), Ok(true));
    conn
}

fn book(name: &str, path: &str, section: Option<&str>) -> Book {
    Book::init(name.to_string(), path.to_string(), section.map(|s| s.to_string()), false)
}

fn same(a: &Book, b: &Book) -> bool {
    a.name == b.name && a.path == b.path && a.section == b.section && a.favourite == b.favourite
}

#[test]
fn create_then_get_returns_the_record() {
    let conn = store();
    let inputs = vec![
        book("one", "/a/one.pdf", Some("Math")),
        book("two", "/b/two.pdf", None),
        book("three", "three.pdf", Some("")),
    ];
    for b in &inputs {
        assert_eq!(db::create_book(&conn, b), Ok(true));
    }
    for b in &inputs {
        let got = get_book(&conn, &b.name).unwrap();
        assert!(same(&got, b));
    }
    let all = get_books(&conn).unwrap();
    assert_eq!(all.len(), 3);
}

#[test]
fn create_with_taken_name_fails_and_keeps_record() {
    let conn = store();
    let first = book("dup", "/x/first.pdf", Some("S"));
    assert_eq!(db::create_book(&conn, &first), Ok(true));
    let second = book("dup", "/y/second.pdf", None);
    assert_eq!(db::create_book(&conn, &second), Err(db::CreateBookError::BookWithNameExists));
    assert_eq!(
        CreateBookError::from(db::CreateBookError::BookWithNameExists),
        CreateBookError::BookNameAlreadyUsed
    );
    let got = get_book(&conn, &"dup".to_string()).unwrap();
    assert!(same(&got, &first));
    assert_eq!(get_books(&conn).unwrap().len(), 1);
}

#[test]
fn create_book_refuses_non_pdf_before_storing() {
    let conn = store();
    let b = book("doc", "/x/y/file.PDF", None);
    assert_eq!(create_book(&conn, &b), Err(CreateBookError::ProvidedPathIsNotPdf));
    let b = book("txt", "notes.txt", None);
    assert_eq!(create_book(&conn, &b), Err(CreateBookError::ProvidedPathIsNotPdf));
    assert_eq!(get_books(&conn).unwrap().len(), 0);
}

#[test]
fn create_book_refuses_missing_path() {
    let conn = store();
    let b = book("ghost", "/no/such/dir/for/books/ghost.pdf", None);
    assert_eq!(create_book(&conn, &b), Err(CreateBookError::ProvidedPathIsIncorrect));
    assert_eq!(get_books(&conn).unwrap().len(), 0);
}

#[test]
fn remove_absent_and_present() {
    let conn = store();
    assert_eq!(remove_book(&conn, &"nobody".to_string()).err(), Some(RemoveBookError::BookDoesNotExist));
    let b = book("gone", "/g/gone.pdf", Some("S"));
    assert_eq!(db::create_book(&conn, &b), Ok(true));
    let removed = remove_book(&conn, &"gone".to_string()).unwrap();
    assert!(same(&removed, &b));
    assert_eq!(get_book(&conn, &"gone".to_string()).err(), Some(GetBookError::TableOrBookDoesnotExist));
    assert!(matches!(db::get_book(&conn, &"gone".to_string()), Err(db::GetBookError::EmptyList)));
}

#[test]
fn favourite_round_trip() {
    let conn = store();
    let b = book("fav", "/f/fav.pdf", None);
    assert_eq!(db::create_book(&conn, &b), Ok(true));
    let updated = update_favourite(&conn, &"fav".to_string(), true).unwrap();
    assert!(updated.favourite);
    assert!(get_book(&conn, &"fav".to_string()).unwrap().favourite);
    let updated = update_favourite(&conn, &"fav".to_string(), false).unwrap();
    assert!(!updated.favourite);
    assert!(!get_book(&conn, &"fav".to_string()).unwrap().favourite);
}

#[test]
fn favourite_of_absent_book() {
    let conn = store();
    assert_eq!(
        update_favourite(&conn, &"none".to_string(), true).err(),
        Some(UpdateFavouriteError::BookDoesNotExist)
    );
}

#[test]
fn missing_table_errors() {
    let conn = Connection::open_in_memory().unwrap();
    assert_eq!(get_books(&conn).err(), Some(GetBooksError::BookOrTableDoesnotExist));
    assert!(matches!(
        db::get_book(&conn, &"x".to_string()),
        Err(db::GetBookError::TableOrBookDoesnotExist)
    ));
    assert_eq!(
        remove_book(&conn, &"x".to_string()).err(),
        Some(RemoveBookError::BookDoesNotExist)
    );
}

#[test]
fn open_store_creates_table() {
    let cfg = db::DbConfig { path_to_db: ":memory:".to_string() };
    let conn = db::open_store(&cfg).unwrap();
    assert_eq!(get_books(&conn).unwrap().len(), 0);
}

#[test]
fn first_book_decisions() {
    assert!(matches!(db::first_book(Vec::new()), Err(db::GetBookError::EmptyList)));
    let rows = vec![Err(rusqlite::Error::QueryReturnedNoRows), Ok(book("b", "b.pdf", None))];
    assert!(matches!(db::first_book(rows), Err(db::GetBookError::NoneElement)));
    let rows = vec![Ok(book("a", "a.pdf", None)), Err(rusqlite::Error::InvalidQuery)];
    let got = db::first_book(rows).ok().unwrap();
    assert_eq!(got.name, "a");
}

#[test]
fn readable_books_drops_unreadable_rows() {
    let rows = vec![
        Ok(book("a", "a.pdf", None)),
        Err(rusqlite::Error::InvalidQuery),
        Ok(book("c", "c.pdf", Some("S"))),
    ];
    let res = db::readable_books(&rows);
    let names: Vec<String> = res.iter().map(|b| b.name.clone()).collect();
    assert_eq!(names, vec!["a", "c"]);
}

#[test]
fn removal_outcome_decisions() {
    let b = book("a", "a.pdf", None);
    assert_eq!(db::removal_outcome(Ok(b.duplicate()), true).ok().map(|x| x.name), Some("a".to_string()));
    assert_eq!(db::removal_outcome(Ok(b), false).err(), Some(db::RemoveBookError::Other));
    assert_eq!(
        db::removal_outcome(Err(db::GetBookError::EmptyList), true).err(),
        Some(db::RemoveBookError::BookDoesNotExist)
    );
}

#[test]
fn error_mappings() {
    assert_eq!(CreateBookError::from(db::CreateBookError::Other), CreateBookError::OtherError);
    assert_eq!(
        UpdateFavouriteError::from(db::UpdateFavouriteError::OtherError),
        UpdateFavouriteError::Other
    );
    assert_eq!(
        UpdateFavouriteError::from(db::UpdateFavouriteError::BookDoesNotExist),
        UpdateFavouriteError::BookDoesNotExist
    );
    assert_eq!(GetBooksError::from(db::GetBooksError::NoBooks), GetBooksError::NoBooks);
    assert_eq!(
        GetBookError::from(db::GetBookError::NoneElement),
        GetBookError::TableOrBookDoesnotExist
    );
    assert_eq!(RemoveBookError::from(db::RemoveBookError::Other), RemoveBookError::Other);
}

#[test]
fn error_messages() {
    assert_eq!(CreateBookError::ProvidedPathIsNotPdf.message(), "Provdied path is not a PDF file!");
    assert_eq!(CreateBookError::BookNameAlreadyUsed.message(), "Provided name is already in use!");
    assert_eq!(UpdateFavouriteError::BookDoesNotExist.message(), "The book doesn't exist!");
    assert_eq!(GetBooksError::NoBooks.message(), "The table of books is empty!");
    assert_eq!(
        GetBookError::TableOrBookDoesnotExist.message(),
        "The book or a table of books doesn't exist!"
    );
    assert_eq!(RemoveBookError::BookDoesNotExist.message(), "This book does not exist!");
    assert_eq!(OpenBookError::FileIsNotPDF.message(), "Provided path is not a PDF file!");
}

#[test]
fn update_outcome_decisions() {
    let b = book("a", "a.pdf", None);
    assert_eq!(
        db::update_outcome(false, true, Ok(b.clone())).err(),
        Some(db::UpdateFavouriteError::BookDoesNotExist)
    );
    assert_eq!(
        db::update_outcome(true, false, Ok(b.clone())).err(),
        Some(db::UpdateFavouriteError::OtherError)
    );
    assert_eq!(
        db::update_outcome(true, true, Err(db::GetBookError::EmptyList)).err(),
        Some(db::UpdateFavouriteError::OtherError)
    );
    assert_eq!(db::update_outcome(true, true, Ok(b)).ok().map(|x| x.name), Some("a".to_string()));
}

#[test]
fn open_checks_book_and_path() {
    let conn = store();
    assert_eq!(
        book_lib::book_path_to_open(&conn, &"absent".to_string()).err(),
        Some(OpenBookError::BookDoesNotExist)
    );
    let b = book("txt", "notes.txt", None);
    assert_eq!(db::create_book(&conn, &b), Ok(true));
    assert_eq!(
        book_lib::book_path_to_open(&conn, &"txt".to_string()).err(),
        Some(OpenBookError::FileIsNotPDF)
    );
    let b = book("moved", "/no/such/dir/for/books/moved.pdf", None);
    assert_eq!(db::create_book(&conn, &b), Ok(true));
    assert_eq!(
        book_lib::book_path_to_open(&conn, &"moved".to_string()).err(),
        Some(OpenBookError::PathIsIncorrect)
    );
}

#[test]
fn store_paths_under_home() {
    let (config, app_dir, file) = db::store_paths("/home/u");
    assert_eq!(config, "/home/u/.config");
    assert_eq!(app_dir, "/home/u/.config/book-cli");
    assert_eq!(file, "/home/u/.config/book-cli/books.db");
}

#[test]
fn argument_builders() {
    let b = book("n", "p.pdf", Some("s"));
    assert_eq!(db::insert_args(&b), vec![Some("n".to_string()), Some("p.pdf".to_string()), Some("s".to_string())]);
    let b = book("n", "p.pdf", None);
    assert_eq!(db::insert_args(&b), vec![Some("n".to_string()), Some("p.pdf".to_string()), None]);
    assert_eq!(db::name_args(&"x".to_string()), vec![Some("x".to_string())]);
    assert_eq!(db::favourite_sql(true), "UPDATE books SET favourite = 1 WHERE name = ?1");
    assert_eq!(db::favourite_sql(false), "UPDATE books SET favourite = 0 WHERE name = ?1");
}

#[test]
fn creation_outcome_decisions() {
    assert_eq!(db::creation_outcome(true, true), Err(db::CreateBookError::BookWithNameExists));
    assert_eq!(db::creation_outcome(false, true), Ok(true));
    assert_eq!(db::creation_outcome(false, false), Err(db::CreateBookError::Other));
}

#[test]
fn lookup_and_listing_outcomes() {
    assert!(matches!(db::lookup_outcome(None), Err(db::GetBookError::TableOrBookDoesnotExist)));
    assert!(matches!(
        db::lookup_outcome(Some(Err(rusqlite::Error::InvalidQuery))),
        Err(db::GetBookError::QueryError(_))
    ));
    assert!(matches!(db::lookup_outcome(Some(Ok(Vec::new()))), Err(db::GetBookError::EmptyList)));
    let got = db::lookup_outcome(Some(Ok(vec![Ok(book("a", "a.pdf", None))]))).ok().unwrap();
    assert_eq!(got.name, "a");
    assert_eq!(db::listing_outcome(None).err(), Some(db::GetBooksError::BookOrTableDoesnotExist));
    assert_eq!(
        db::listing_outcome(Some(Err(rusqlite::Error::InvalidQuery))).err(),
        Some(db::GetBooksError::NoBooks)
    );
    let rows = vec![Err(rusqlite::Error::InvalidQuery), Ok(book("b", "b.pdf", None))];
    assert_eq!(db::listing_outcome(Some(Ok(rows))).unwrap().len(), 1);
}

#[test]
fn validation_decisions() {
    assert_eq!(book_lib::validation_error(false, true), Some(CreateBookError::ProvidedPathIsNotPdf));
    assert_eq!(book_lib::validation_error(false, false), Some(CreateBookError::ProvidedPathIsNotPdf));
    assert_eq!(book_lib::validation_error(true, false), Some(CreateBookError::ProvidedPathIsIncorrect));
    assert_eq!(book_lib::validation_error(true, true), None);
}

#[test]
fn open_outcome_decisions() {
    assert_eq!(
        book_lib::open_outcome(Err(db::GetBookError::EmptyList), true).err(),
        Some(OpenBookError::BookDoesNotExist)
    );
    assert_eq!(
        book_lib::open_outcome(Ok(book("t", "t.txt", None)), true).err(),
        Some(OpenBookError::FileIsNotPDF)
    );
    assert_eq!(
        book_lib::open_outcome(Ok(book("p", "a/p.pdf", None)), false).err(),
        Some(OpenBookError::PathIsIncorrect)
    );
    assert_eq!(book_lib::open_outcome(Ok(book("p", "a/p.pdf", None)), true).ok(), Some("a/p.pdf".to_string()));
}

#[test]
fn same_path_under_two_names() {
    let conn = store();
    assert_eq!(db::create_book(&conn, &book("one", "/shared/x.pdf", None)), Ok(true));
    assert_eq!(db::create_book(&conn, &book("two", "/shared/x.pdf", None)), Ok(true));
    assert_eq!(get_books(&conn).unwrap().len(), 2);
}
