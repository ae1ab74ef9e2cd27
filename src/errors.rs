//! The errors the facade functions return, and how each error of the
//! storage layer maps onto them.

use vstd::prelude::*;

use crate::db;

verus! {

/// Why a book could not be created.
#[derive(Debug, PartialEq, Eq, Structural)]
pub enum CreateBookError {
    ProvidedPathIsNotPdf,
    ProvidedPathIsIncorrect,
    BookNameAlreadyUsed,
    OtherError,
}

impl CreateBookError {
    /// The text that describes the error.
    pub open spec fn text(&self) -> Seq<char> {
        match self {
            CreateBookError::ProvidedPathIsNotPdf => "Provdied path is not a PDF file!"@,
            CreateBookError::ProvidedPathIsIncorrect => "Provide path is incorrect!"@,
            CreateBookError::BookNameAlreadyUsed => "Provided name is already in use!"@,
            CreateBookError::OtherError => "Unexpected error!"@,
        }
    }

    /// Describes the error for a user.
    pub fn message(&self) -> (r: String)
        ensures
            r@ == self.text(),
    {
        match self {
            CreateBookError::ProvidedPathIsNotPdf => String::from_str(
                "Provdied path is not a PDF file!",
            ),
            CreateBookError::ProvidedPathIsIncorrect => String::from_str(
                "Provide path is incorrect!",
            ),
            CreateBookError::BookNameAlreadyUsed => String::from_str(
                "Provided name is already in use!",
            ),
            CreateBookError::OtherError => String::from_str("Unexpected error!"),
        }
    }
}

impl From<db::CreateBookError> for CreateBookError {
    fn from(value: db::CreateBookError) -> Self {
        match value {
            db::CreateBookError::BookWithNameExists => CreateBookError::BookNameAlreadyUsed,
            db::CreateBookError::Other => CreateBookError::OtherError,
        }
    }
}

impl vstd::std_specs::convert::FromSpecImpl<db::CreateBookError> for CreateBookError {
    open spec fn obeys_from_spec() -> bool {
        true
    }

    open spec fn from_spec(v: db::CreateBookError) -> Self {
        match v {
            db::CreateBookError::BookWithNameExists => CreateBookError::BookNameAlreadyUsed,
            db::CreateBookError::Other => CreateBookError::OtherError,
        }
    }
}

/// Why the favourite flag of a book could not be set.
#[derive(Debug, PartialEq, Eq, Structural)]
pub enum UpdateFavouriteError {
    BookDoesNotExist,
    Other,
}

impl UpdateFavouriteError {
    /// The text that describes the error.
    pub open spec fn text(&self) -> Seq<char> {
        match self {
            UpdateFavouriteError::BookDoesNotExist => "The book doesn't exist!"@,
            UpdateFavouriteError::Other => "Unexpected error!"@,
        }
    }

    /// Describes the error for a user.
    pub fn message(&self) -> (r: String)
        ensures
            r@ == self.text(),
    {
        match self {
            UpdateFavouriteError::BookDoesNotExist => String::from_str("The book doesn't exist!"),
            UpdateFavouriteError::Other => String::from_str("Unexpected error!"),
        }
    }
}

impl From<db::UpdateFavouriteError> for UpdateFavouriteError {
    fn from(value: db::UpdateFavouriteError) -> Self {
        match value {
            db::UpdateFavouriteError::BookDoesNotExist => UpdateFavouriteError::BookDoesNotExist,
            db::UpdateFavouriteError::OtherError => UpdateFavouriteError::Other,
        }
    }
}

impl vstd::std_specs::convert::FromSpecImpl<db::UpdateFavouriteError> for UpdateFavouriteError {
    open spec fn obeys_from_spec() -> bool {
        true
    }

    open spec fn from_spec(v: db::UpdateFavouriteError) -> Self {
        match v {
            db::UpdateFavouriteError::BookDoesNotExist => UpdateFavouriteError::BookDoesNotExist,
            db::UpdateFavouriteError::OtherError => UpdateFavouriteError::Other,
        }
    }
}

/// Why the list of books could not be read.
#[derive(Debug, PartialEq, Eq, Structural)]
pub enum GetBooksError {
    BookOrTableDoesnotExist,
    NoBooks,
}

impl GetBooksError {
    /// The text that describes the error.
    pub open spec fn text(&self) -> Seq<char> {
        match self {
            GetBooksError::BookOrTableDoesnotExist => "Books or the table of books doesn't exist!"@,
            GetBooksError::NoBooks => "The table of books is empty!"@,
        }
    }

    /// Describes the error for a user.
    pub fn message(&self) -> (r: String)
        ensures
            r@ == self.text(),
    {
        match self {
            GetBooksError::BookOrTableDoesnotExist => String::from_str(
                "Books or the table of books doesn't exist!",
            ),
            GetBooksError::NoBooks => String::from_str("The table of books is empty!"),
        }
    }
}

impl From<db::GetBooksError> for GetBooksError {
    fn from(value: db::GetBooksError) -> Self {
        match value {
            db::GetBooksError::BookOrTableDoesnotExist => GetBooksError::BookOrTableDoesnotExist,
            db::GetBooksError::NoBooks => GetBooksError::NoBooks,
        }
    }
}

impl vstd::std_specs::convert::FromSpecImpl<db::GetBooksError> for GetBooksError {
    open spec fn obeys_from_spec() -> bool {
        true
    }

    open spec fn from_spec(v: db::GetBooksError) -> Self {
        match v {
            db::GetBooksError::BookOrTableDoesnotExist => GetBooksError::BookOrTableDoesnotExist,
            db::GetBooksError::NoBooks => GetBooksError::NoBooks,
        }
    }
}

/// Why a book could not be found.
#[derive(Debug, PartialEq, Eq, Structural)]
pub enum GetBookError {
    TableOrBookDoesnotExist,
}

impl GetBookError {
    /// The text that describes the error.
    pub open spec fn text(&self) -> Seq<char> {
        match self {
            GetBookError::TableOrBookDoesnotExist => "The book or a table of books doesn't exist!"@,
        }
    }

    /// Describes the error for a user.
    pub fn message(&self) -> (r: String)
        ensures
            r@ == self.text(),
    {
        match self {
            GetBookError::TableOrBookDoesnotExist => String::from_str(
                "The book or a table of books doesn't exist!",
            ),
        }
    }
}

impl From<db::GetBookError> for GetBookError {
    fn from(value: db::GetBookError) -> Self {
        GetBookError::TableOrBookDoesnotExist
    }
}

impl vstd::std_specs::convert::FromSpecImpl<db::GetBookError> for GetBookError {
    open spec fn obeys_from_spec() -> bool {
        true
    }

    open spec fn from_spec(v: db::GetBookError) -> Self {
        GetBookError::TableOrBookDoesnotExist
    }
}

/// Why a book could not be removed.
#[derive(Debug, PartialEq, Eq, Structural)]
pub enum RemoveBookError {
    BookDoesNotExist,
    Other,
}

impl RemoveBookError {
    /// The text that describes the error.
    pub open spec fn text(&self) -> Seq<char> {
        match self {
            RemoveBookError::BookDoesNotExist => "This book does not exist!"@,
            RemoveBookError::Other => "Unexpected error!"@,
        }
    }

    /// Describes the error for a user.
    pub fn message(&self) -> (r: String)
        ensures
            r@ == self.text(),
    {
        match self {
            RemoveBookError::BookDoesNotExist => String::from_str("This book does not exist!"),
            RemoveBookError::Other => String::from_str("Unexpected error!"),
        }
    }
}

impl From<db::RemoveBookError> for RemoveBookError {
    fn from(value: db::RemoveBookError) -> Self {
        match value {
            db::RemoveBookError::BookDoesNotExist => RemoveBookError::BookDoesNotExist,
            db::RemoveBookError::Other => RemoveBookError::Other,
        }
    }
}

impl vstd::std_specs::convert::FromSpecImpl<db::RemoveBookError> for RemoveBookError {
    open spec fn obeys_from_spec() -> bool {
        true
    }

    open spec fn from_spec(v: db::RemoveBookError) -> Self {
        match v {
            db::RemoveBookError::BookDoesNotExist => RemoveBookError::BookDoesNotExist,
            db::RemoveBookError::Other => RemoveBookError::Other,
        }
    }
}

/// Why a book could not be opened.
#[derive(Debug, PartialEq, Eq, Structural)]
pub enum OpenBookError {
    BookDoesNotExist,
    PathIsIncorrect,
    FileIsNotPDF,
    OtherError,
}

impl OpenBookError {
    /// The text that describes the error.
    pub open spec fn text(&self) -> Seq<char> {
        match self {
            OpenBookError::BookDoesNotExist => "This book does not exist!"@,
            OpenBookError::PathIsIncorrect => "Provided path is incorrect!"@,
            OpenBookError::FileIsNotPDF => "Provided path is not a PDF file!"@,
            OpenBookError::OtherError => "Unexpected error!"@,
        }
    }

    /// Describes the error for a user.
    pub fn message(&self) -> (r: String)
        ensures
            r@ == self.text(),
    {
        match self {
            OpenBookError::BookDoesNotExist => String::from_str("This book does not exist!"),
            OpenBookError::PathIsIncorrect => String::from_str("Provided path is incorrect!"),
            OpenBookError::FileIsNotPDF => String::from_str("Provided path is not a PDF file!"),
            OpenBookError::OtherError => String::from_str("Unexpected error!"),
        }
    }
}

} // verus!
