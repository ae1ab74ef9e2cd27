//! Storage of books in a single SQLite table.
//!
//! What the database holds lives on disk, out of reach of the proofs: each
//! function here states what holds of every answer the database can give,
//! and the decisions taken on those answers stand in functions of their own
//! with exact contracts.

use vstd::prelude::*;

use crate::book::Book;

verus! {

#[verifier::external_type_specification]
#[verifier::external_body]
pub struct ExConnection(rusqlite::Connection);

#[verifier::external_type_specification]
#[verifier::external_body]
pub struct ExSqlError(rusqlite::Error);

#[verifier::external_type_specification]
#[verifier::external_body]
pub struct ExStatement<'conn>(rusqlite::Statement<'conn>);

/// Relies on rusqlite's `Connection::open`: opens the database file at `path`.
#[verifier::external_body]
fn open_connection(path: &str) -> (r: Result<rusqlite::Connection, rusqlite::Error>) {
    rusqlite::Connection::open(path)
}

/// Relies on rusqlite's `Connection::execute`: runs one statement whose
/// positional parameters are bound to `args` in order, `None` as NULL.
#[verifier::external_body]
fn execute(conn: &rusqlite::Connection, sql: &str, args: &Vec<Option<String>>) -> (r: Result<
    usize,
    rusqlite::Error,
>) {
    conn.execute(sql, rusqlite::params_from_iter(args.iter()))
}

/// Relies on rusqlite's `Connection::prepare`: compiles one SQL statement.
#[verifier::external_body]
fn prepare<'c>(conn: &'c rusqlite::Connection, sql: &str) -> (r: Result<
    rusqlite::Statement<'c>,
    rusqlite::Error,
>) {
    conn.prepare(sql)
}

/// Relies on rusqlite's `Statement::query_map` and `Row::get`: runs the
/// query with `args` bound in order and reads the columns (id, name, path,
/// section, favourite) of each row into a book, or keeps the error of
/// reading that row.
#[verifier::external_body]
fn query_books(stmt: &mut rusqlite::Statement, args: &Vec<Option<String>>) -> (r: Result<
    Vec<Result<Book, rusqlite::Error>>,
    rusqlite::Error,
>) {
    let rows = stmt.query_map(rusqlite::params_from_iter(args.iter()), |row| {
        let _id: u32 = row.get(0)?;
        Ok(Book { name: row.get(1)?, path: row.get(2)?, section: row.get(3)?, favourite: row.get(4)? })
    })?;
    Ok(rows.collect())
}

/// Where the database file lives.
pub struct DbConfig {
    pub path_to_db: String,
}

/// The places of the store under a home directory: the configuration
/// directory `<home>/.config`, the directory `book-cli` in it, and the
/// database file `books.db` in that.
pub fn store_paths(home: &str) -> (r: (String, String, String))
    ensures
        r.0@ == home@ + "/.config"@,
        r.1@ == r.0@ + "/book-cli"@,
        r.2@ == r.1@ + "/books.db"@,
{
    let mut config = String::from_str(home);
    config.append("/.config");
    let mut app_dir = config.clone();
    app_dir.append("/book-cli");
    let mut file = app_dir.clone();
    file.append("/books.db");
    (config, app_dir, file)
}

/// Why the store could not be made ready.
#[derive(Debug, PartialEq, Eq, Structural)]
pub enum SetupError {
    /// the database file could not be opened
    OpenFailed,
    /// the table of books could not be created
    TableNotCreated,
}

/// Creates the table of books unless it exists: `Ok(true)` when the
/// statement ran, `Err(false)` when it failed.
pub fn create_table(conn: &rusqlite::Connection) -> (r: Result<bool, bool>)
    ensures
        r == Ok::<bool, bool>(true) || r == Err::<bool, bool>(false),
{
    let args: Vec<Option<String>> = Vec::new();
    match execute(
        conn,
        "CREATE TABLE IF NOT EXISTS books(
            id INTEGER PRIMARY KEY,
            name TEXT NOT NULL,
            path TEXT NOT NULL,
            section TEXT,
            favourite INTEGER NOT NULL DEFAULT 0
            )",
        &args,
    ) {
        Ok(_) => Ok(true),
        Err(_) => Err(false),
    }
}

/// Opens the database named by `config`, creating the file when it is
/// missing (the directories above it must exist), and makes sure its table
/// exists.
pub fn open_store(config: &DbConfig) -> (r: Result<rusqlite::Connection, SetupError>)
    ensures
        r is Ok || r == Err::<rusqlite::Connection, SetupError>(SetupError::OpenFailed) || r == Err::<
            rusqlite::Connection,
            SetupError,
        >(SetupError::TableNotCreated),
{
    match open_connection(config.path_to_db.as_str()) {
        Err(_) => Err(SetupError::OpenFailed),
        Ok(conn) => match create_table(&conn) {
            Ok(_) => Ok(conn),
            Err(_) => Err(SetupError::TableNotCreated),
        },
    }
}

/// Why a book could not be looked up.
#[derive(Debug)]
pub enum GetBookError {
    /// the query could not be run
    QueryError(rusqlite::Error),
    /// no row holds that name
    EmptyList,
    /// the first row could not be read as a book
    NoneElement,
    /// the query could not be prepared, most often because the table is missing
    TableOrBookDoesnotExist,
}

/// The answer to a lookup by name, from the rows the query returned: the
/// first row's book, `EmptyList` when there is no row, `NoneElement` when
/// the first row could not be read.
pub fn first_book(rows: Vec<Result<Book, rusqlite::Error>>) -> (r: Result<Book, GetBookError>)
    ensures
        rows@.len() == 0 ==> r == Err::<Book, GetBookError>(GetBookError::EmptyList),
        rows@.len() > 0 ==> match rows@[0] {
            Ok(b) => r == Ok::<Book, GetBookError>(b),
            Err(_) => r == Err::<Book, GetBookError>(GetBookError::NoneElement),
        },
{
    if rows.len() == 0 {
        return Err(GetBookError::EmptyList);
    }
    let mut rows = rows;
    match rows.remove(0) {
        Ok(b) => Ok(b),
        Err(_) => Err(GetBookError::NoneElement),
    }
}

/// The parameters of a statement that selects or changes the book of one
/// name: that name alone.
pub fn name_args(name: &String) -> (r: Vec<Option<String>>)
    ensures
        r@ == seq![Some(*name)],
{
    let r = vec![Some(name.clone())];
    assert(r@ =~= seq![Some(*name)]);
    r
}

/// The answer to a lookup by name, from what the database answered: `None`
/// when the statement could not be prepared, else the result of the query.
pub fn lookup_outcome(answer: Option<Result<Vec<Result<Book, rusqlite::Error>>, rusqlite::Error>>) -> (r:
    Result<Book, GetBookError>)
    ensures
        match answer {
            None => r == Err::<Book, GetBookError>(GetBookError::TableOrBookDoesnotExist),
            Some(Err(e)) => r == Err::<Book, GetBookError>(GetBookError::QueryError(e)),
            Some(Ok(rows)) => (rows@.len() == 0 ==> r == Err::<Book, GetBookError>(
                GetBookError::EmptyList,
            )) && (rows@.len() > 0 ==> match rows@[0] {
                Ok(b) => r == Ok::<Book, GetBookError>(b),
                Err(_) => r == Err::<Book, GetBookError>(GetBookError::NoneElement),
            }),
        },
{
    match answer {
        None => Err(GetBookError::TableOrBookDoesnotExist),
        Some(Err(e)) => Err(GetBookError::QueryError(e)),
        Some(Ok(rows)) => first_book(rows),
    }
}

/// Looks a book up by its exact name, the name being the statement's only
/// parameter.
pub fn get_book(conn: &rusqlite::Connection, name: &String) -> (r: Result<Book, GetBookError>)
    ensures
        r is Ok || r matches Err(GetBookError::QueryError(_)) || r == Err::<Book, GetBookError>(
            GetBookError::EmptyList,
        ) || r == Err::<Book, GetBookError>(GetBookError::NoneElement) || r == Err::<
            Book,
            GetBookError,
        >(GetBookError::TableOrBookDoesnotExist),
{
    let answer = match prepare(conn, "SELECT * FROM books WHERE name = ?1") {
        Err(_) => None,
        Ok(mut stmt) => {
            let args = name_args(name);
            Some(query_books(&mut stmt, &args))
        },
    };
    lookup_outcome(answer)
}

/// Why a book could not be stored.
#[derive(Debug, PartialEq, Eq, Structural)]
pub enum CreateBookError {
    /// a book with that name is stored already
    BookWithNameExists,
    /// the insertion failed
    Other,
}

/// The parameters of the insertion of a book: its name, its path and its
/// section, in that order. The favourite flag is left to the table's
/// default, false.
pub fn insert_args(bk: &Book) -> (r: Vec<Option<String>>)
    ensures
        r@ == seq![Some(bk.name), Some(bk.path), bk.section],
{
    let section = match &bk.section {
        Some(s) => Some(s.clone()),
        None => None,
    };
    let r = vec![Some(bk.name.clone()), Some(bk.path.clone()), section];
    assert(r@ =~= seq![Some(bk.name), Some(bk.path), bk.section]);
    r
}

/// The answer to a creation: `BookWithNameExists` when a book of that name
/// was found, else `Ok(true)` or `Other` as the insertion succeeded or not.
pub fn creation_outcome(found: bool, inserted: bool) -> (r: Result<bool, CreateBookError>)
    ensures
        found ==> r == Err::<bool, CreateBookError>(CreateBookError::BookWithNameExists),
        !found && inserted ==> r == Ok::<bool, CreateBookError>(true),
        !found && !inserted ==> r == Err::<bool, CreateBookError>(CreateBookError::Other),
{
    if found {
        Err(CreateBookError::BookWithNameExists)
    } else if inserted {
        Ok(true)
    } else {
        Err(CreateBookError::Other)
    }
}

/// Stores a new book unless a book of that name can be found. Only the
/// name counts: another book may have the same path.
pub fn create_book(conn: &rusqlite::Connection, bk: &Book) -> (r: Result<bool, CreateBookError>)
    ensures
        r == Ok::<bool, CreateBookError>(true) || r == Err::<bool, CreateBookError>(
            CreateBookError::BookWithNameExists,
        ) || r == Err::<bool, CreateBookError>(CreateBookError::Other),
{
    if get_book(conn, &bk.name).is_ok() {
        return creation_outcome(true, false);
    }
    let args = insert_args(bk);
    let inserted = execute(
        conn,
        "INSERT INTO books (name, path, section) VALUES (?1, ?2, ?3)",
        &args,
    ).is_ok();
    creation_outcome(false, inserted)
}

/// Why a book could not be removed.
#[derive(Debug, PartialEq, Eq, Structural)]
pub enum RemoveBookError {
    /// no book of that name could be found
    BookDoesNotExist,
    /// the deletion failed
    Other,
}

/// The answer to a removal: the book found before the deletion when the
/// deletion ran, `Other` when it failed, `BookDoesNotExist` when no book
/// was found.
pub fn removal_outcome(found: Result<Book, GetBookError>, deleted: bool) -> (r: Result<
    Book,
    RemoveBookError,
>)
    ensures
        match found {
            Ok(b) => if deleted {
                r == Ok::<Book, RemoveBookError>(b)
            } else {
                r == Err::<Book, RemoveBookError>(RemoveBookError::Other)
            },
            Err(_) => r == Err::<Book, RemoveBookError>(RemoveBookError::BookDoesNotExist),
        },
{
    match found {
        Ok(b) => if deleted {
            Ok(b)
        } else {
            Err(RemoveBookError::Other)
        },
        Err(_) => Err(RemoveBookError::BookDoesNotExist),
    }
}

/// Removes the book of that name and returns it as it was stored. The
/// deletion, whose only parameter is the name, is only attempted once the
/// book has been found.
pub fn remove_book(conn: &rusqlite::Connection, name: &String) -> (r: Result<Book, RemoveBookError>)
    ensures
        r is Ok || r == Err::<Book, RemoveBookError>(RemoveBookError::BookDoesNotExist) || r == Err::<
            Book,
            RemoveBookError,
        >(RemoveBookError::Other),
{
    let found = get_book(conn, name);
    let mut deleted = false;
    if found.is_ok() {
        let args = name_args(name);
        deleted = execute(conn, "DELETE FROM books WHERE name = ?1", &args).is_ok();
    }
    removal_outcome(found, deleted)
}

/// The books of the rows that could be read, in row order.
pub open spec fn readable(rows: Seq<Result<Book, rusqlite::Error>>) -> Seq<Book>
    decreases rows.len(),
{
    if rows.len() == 0 {
        Seq::empty()
    } else {
        match rows.last() {
            Ok(b) => readable(rows.drop_last()).push(b),
            Err(_) => readable(rows.drop_last()),
        }
    }
}

/// Keeps the books of the rows that could be read, in row order, and drops
/// the rows that could not.
pub fn readable_books(rows: &Vec<Result<Book, rusqlite::Error>>) -> (r: Vec<Book>)
    ensures
        r@ == readable(rows@),
{
    let mut res: Vec<Book> = Vec::new();
    let mut i: usize = 0;
    while i < rows.len()
        invariant
            i <= rows.len(),
            res@ == readable(rows@.take(i as int)),
        decreases rows.len() - i,
    {
        assert(rows@.take(i + 1).drop_last() =~= rows@.take(i as int));
        match &rows[i] {
            Ok(b) => res.push(b.duplicate()),
            Err(_) => {},
        }
        i = i + 1;
    }
    assert(rows@.take(rows@.len() as int) =~= rows@);
    res
}

/// Why the list of books could not be read.
#[derive(Debug, PartialEq, Eq, Structural)]
pub enum GetBooksError {
    /// the query could not be prepared, most often because the table is missing
    BookOrTableDoesnotExist,
    /// the query could not be run
    NoBooks,
}

/// The answer to a listing, from what the database answered: `None` when
/// the statement could not be prepared, else the result of the query.
pub fn listing_outcome(answer: Option<Result<Vec<Result<Book, rusqlite::Error>>, rusqlite::Error>>) -> (r:
    Result<Vec<Book>, GetBooksError>)
    ensures
        match answer {
            None => r == Err::<Vec<Book>, GetBooksError>(GetBooksError::BookOrTableDoesnotExist),
            Some(Err(_)) => r == Err::<Vec<Book>, GetBooksError>(GetBooksError::NoBooks),
            Some(Ok(rows)) => r matches Ok(books) && books@ == readable(rows@),
        },
{
    match answer {
        None => Err(GetBooksError::BookOrTableDoesnotExist),
        Some(Err(_)) => Err(GetBooksError::NoBooks),
        Some(Ok(rows)) => Ok(readable_books(&rows)),
    }
}

/// All stored books whose rows could be read, in the order the database
/// returns them.
pub fn get_books(conn: &rusqlite::Connection) -> (r: Result<Vec<Book>, GetBooksError>)
    ensures
        r is Ok || r == Err::<Vec<Book>, GetBooksError>(GetBooksError::BookOrTableDoesnotExist)
            || r == Err::<Vec<Book>, GetBooksError>(GetBooksError::NoBooks),
{
    let answer = match prepare(conn, "SELECT * FROM books") {
        Err(_) => None,
        Ok(mut stmt) => {
            let args: Vec<Option<String>> = Vec::new();
            Some(query_books(&mut stmt, &args))
        },
    };
    listing_outcome(answer)
}

/// Why the favourite flag could not be set.
#[derive(Debug, PartialEq, Eq, Structural)]
pub enum UpdateFavouriteError {
    /// no book of that name could be found before the update
    BookDoesNotExist,
    /// the update failed, or the book could not be read back after it
    OtherError,
}

/// The answer to a favourite update: `BookDoesNotExist` when no book was
/// found before the update, `OtherError` when the update failed or the book
/// could not be read back after it, else the book as read back.
pub fn update_outcome(found: bool, updated: bool, read_back: Result<Book, GetBookError>) -> (r:
    Result<Book, UpdateFavouriteError>)
    ensures
        !found ==> r == Err::<Book, UpdateFavouriteError>(UpdateFavouriteError::BookDoesNotExist),
        found && !updated ==> r == Err::<Book, UpdateFavouriteError>(
            UpdateFavouriteError::OtherError,
        ),
        found && updated ==> match read_back {
            Ok(b) => r == Ok::<Book, UpdateFavouriteError>(b),
            Err(_) => r == Err::<Book, UpdateFavouriteError>(UpdateFavouriteError::OtherError),
        },
{
    if !found {
        return Err(UpdateFavouriteError::BookDoesNotExist);
    }
    if !updated {
        return Err(UpdateFavouriteError::OtherError);
    }
    match read_back {
        Ok(b) => Ok(b),
        Err(_) => Err(UpdateFavouriteError::OtherError),
    }
}

/// The statement that sets the favourite flag of the book named by its
/// only parameter to `favourite`.
pub fn favourite_sql(favourite: bool) -> (r: &'static str)
    ensures
        r@ == (if favourite {
            "UPDATE books SET favourite = 1 WHERE name = ?1"@
        } else {
            "UPDATE books SET favourite = 0 WHERE name = ?1"@
        }),
{
    if favourite {
        "UPDATE books SET favourite = 1 WHERE name = ?1"
    } else {
        "UPDATE books SET favourite = 0 WHERE name = ?1"
    }
}

/// Sets the favourite flag of the book of that name and returns the book as
/// read back after the update. The update is only attempted once the book
/// has been found; a book that cannot be read back after a successful
/// update gives `OtherError`, since it was found just before.
pub fn update_favourite_error(conn: &rusqlite::Connection, name: &String, favourite: bool) -> (r:
    Result<Book, UpdateFavouriteError>)
    ensures
        r is Ok || r == Err::<Book, UpdateFavouriteError>(UpdateFavouriteError::BookDoesNotExist)
            || r == Err::<Book, UpdateFavouriteError>(UpdateFavouriteError::OtherError),
{
    if get_book(conn, name).is_err() {
        return update_outcome(false, false, Err(GetBookError::EmptyList));
    }
    let args = name_args(name);
    if execute(conn, favourite_sql(favourite), &args).is_err() {
        return update_outcome(true, false, Err(GetBookError::EmptyList));
    }
    update_outcome(true, true, get_book(conn, name))
}

} // verus!
