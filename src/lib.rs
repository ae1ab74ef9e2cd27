//! A small catalog of PDF documents ("books") kept in an SQLite table.
//!
//! Each book has a unique name, a path to a PDF file, an optional section
//! and a favourite flag. The facade functions of this module validate their
//! input before they touch the store, and report one error type per
//! operation whatever failed underneath.

use vstd::prelude::*;

pub mod book;
pub mod db;
pub mod errors;
pub mod help;

use book::Book;
use errors::{
    CreateBookError, GetBookError, GetBooksError, OpenBookError, RemoveBookError,
    UpdateFavouriteError,
};
use help::is_pdf_path;

verus! {

/// All the books of the store, or why they could not be read.
pub fn get_books(conn: &rusqlite::Connection) -> (r: Result<Vec<Book>, GetBooksError>) {
    match db::get_books(conn) {
        Ok(res) => Ok(res),
        Err(err) => Err(GetBooksError::from(err)),
    }
}

/// The book of the given name; any failure to find it is
/// `TableOrBookDoesnotExist`.
pub fn get_book(conn: &rusqlite::Connection, name: &String) -> (r: Result<Book, GetBookError>)
    ensures
        r is Err ==> r == Err::<Book, GetBookError>(GetBookError::TableOrBookDoesnotExist),
{
    match db::get_book(conn, name) {
        Ok(res) => Ok(res),
        Err(err) => Err(GetBookError::from(err)),
    }
}

/// Removes the book of the given name and returns it.
pub fn remove_book(conn: &rusqlite::Connection, name: &String) -> (r: Result<Book, RemoveBookError>) {
    match db::remove_book(conn, name) {
        Ok(res) => Ok(res),
        Err(err) => Err(RemoveBookError::from(err)),
    }
}

/// The error that validation finds in a new book, from whether its path
/// names a PDF file and whether something exists at that path: a path that
/// is not a PDF is refused first, then a path with nothing on disk.
pub fn validation_error(pdf: bool, exists: bool) -> (r: Option<CreateBookError>)
    ensures
        r == (if !pdf {
            Some(CreateBookError::ProvidedPathIsNotPdf)
        } else if !exists {
            Some(CreateBookError::ProvidedPathIsIncorrect)
        } else {
            None::<CreateBookError>
        }),
{
    if !pdf {
        Some(CreateBookError::ProvidedPathIsNotPdf)
    } else if !exists {
        Some(CreateBookError::ProvidedPathIsIncorrect)
    } else {
        None
    }
}

/// Stores a new book. A path that does not name a PDF file is refused
/// before anything else is looked at; then a path with nothing on disk;
/// then a name that is in use. Another book with the same path is no
/// obstacle.
pub fn create_book(conn: &rusqlite::Connection, bk: &Book) -> (r: Result<bool, CreateBookError>)
    ensures
        r == Err::<bool, CreateBookError>(CreateBookError::ProvidedPathIsNotPdf) <==> !is_pdf_path(
            bk.path@,
        ),
        r == Err::<bool, CreateBookError>(CreateBookError::ProvidedPathIsIncorrect) ==> is_pdf_path(
            bk.path@,
        ),
        r == Ok::<bool, CreateBookError>(true) || r == Err::<bool, CreateBookError>(
            CreateBookError::ProvidedPathIsNotPdf,
        ) || r == Err::<bool, CreateBookError>(CreateBookError::ProvidedPathIsIncorrect) || r
            == Err::<bool, CreateBookError>(CreateBookError::BookNameAlreadyUsed) || r == Err::<
            bool,
            CreateBookError,
        >(CreateBookError::OtherError),
{
    let pdf = help::is_pdf(bk.path.as_str());
    let exists = pdf && help::path_exists(bk.path.as_str());
    if let Some(e) = validation_error(pdf, exists) {
        return Err(e);
    }
    match db::create_book(conn, bk) {
        Ok(_) => Ok(true),
        Err(err) => Err(CreateBookError::from(err)),
    }
}

/// Sets the favourite flag of the book of the given name and returns the
/// book as stored afterwards.
pub fn update_favourite(conn: &rusqlite::Connection, name: &String, favourite: bool) -> (r: Result<
    Book,
    UpdateFavouriteError,
>) {
    match db::update_favourite_error(conn, name, favourite) {
        Ok(book) => Ok(book),
        Err(err) => Err(UpdateFavouriteError::from(err)),
    }
}

/// The answer to a request to open a book, from the lookup and from
/// whether something exists at the found book's path (asked only for a PDF
/// path): the path to open, or why there is none.
pub fn open_outcome(found: Result<Book, db::GetBookError>, exists: bool) -> (r: Result<
    String,
    OpenBookError,
>)
    ensures
        match found {
            Err(_) => r == Err::<String, OpenBookError>(OpenBookError::BookDoesNotExist),
            Ok(b) => if !is_pdf_path(b.path@) {
                r == Err::<String, OpenBookError>(OpenBookError::FileIsNotPDF)
            } else if !exists {
                r == Err::<String, OpenBookError>(OpenBookError::PathIsIncorrect)
            } else {
                r matches Ok(p) && p@ == b.path@
            },
        },
{
    match found {
        Err(_) => Err(OpenBookError::BookDoesNotExist),
        Ok(bk) => {
            if !help::is_pdf(bk.path.as_str()) {
                Err(OpenBookError::FileIsNotPDF)
            } else if !exists {
                Err(OpenBookError::PathIsIncorrect)
            } else {
                Ok(bk.path)
            }
        },
    }
}

/// Finds the book of the given name and checks again, since the file may
/// have moved since it was stored, that its path names a PDF file that
/// exists. Returns that path, ready to be handed to a viewer.
pub fn book_path_to_open(conn: &rusqlite::Connection, name: &String) -> (r: Result<
    String,
    OpenBookError,
>)
    ensures
        r matches Ok(p) ==> is_pdf_path(p@),
{
    let found = db::get_book(conn, name);
    let exists = match &found {
        Ok(bk) => help::is_pdf(bk.path.as_str()) && help::path_exists(bk.path.as_str()),
        Err(_) => false,
    };
    open_outcome(found, exists)
}

} // verus!
