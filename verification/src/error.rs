//! The kinds of failure, the HTTP status each one maps to, and the body that
//! is sent to the client.

use vstd::prelude::*;

verus! {

/// A failure of the persistence layer, by kind.
#[derive(Debug)]
pub enum StorageError {
    /// A value that must be unique is already stored.
    UniqueViolation,
    /// A record refers to another one that is not stored.
    ForeignKeyViolation,
    /// Any other failure, with the text the storage gave.
    Other(String),
}

/// A `StorageError` as plain values.
pub enum StorageErrorView {
    UniqueViolation,
    ForeignKeyViolation,
    Other(Seq<char>),
}

impl View for StorageError {
    type V = StorageErrorView;

    open spec fn view(&self) -> StorageErrorView {
        match self {
            StorageError::UniqueViolation => StorageErrorView::UniqueViolation,
            StorageError::ForeignKeyViolation => StorageErrorView::ForeignKeyViolation,
            StorageError::Other(text) => StorageErrorView::Other(text@),
        }
    }
}

impl StorageErrorView {
    /// The text that describes the failure.
    pub open spec fn message(self) -> Seq<char> {
        match self {
            StorageErrorView::UniqueViolation => "unique constraint violated"@,
            StorageErrorView::ForeignKeyViolation => "foreign key constraint violated"@,
            StorageErrorView::Other(text) => text,
        }
    }
}

impl StorageError {
    /// The text that describes the failure.
    pub fn message(&self) -> (text: String)
        ensures
            text@ == self@.message(),
    {
        match self {
            StorageError::UniqueViolation => String::from_str("unique constraint violated"),
            StorageError::ForeignKeyViolation => String::from_str(
                "foreign key constraint violated",
            ),
            StorageError::Other(text) => text.clone(),
        }
    }
}

/// Everything that can go wrong, by kind.
#[derive(Debug)]
pub enum Error {
    /// An identity with this id or this name is already stored.
    PlayerAlreadyExists { id: String, name: String },
    /// No record matches the token, id or name that was asked for.
    NotExist,
    /// The persistence layer failed.
    SQLX(StorageError),
    /// A request to the identity provider failed in transport, by its status
    /// or in decoding its answer. Holds the text of the failure.
    Reqwest(String),
    /// Any other failure of the exchange with the identity provider. Holds
    /// the text of the failure.
    Any(String),
    /// The secure random source gave no bytes.
    Entropy,
}

/// An `Error` as plain values.
pub enum ErrorView {
    PlayerAlreadyExists { id: Seq<char>, name: Seq<char> },
    NotExist,
    SQLX(StorageErrorView),
    Reqwest(Seq<char>),
    Any(Seq<char>),
    Entropy,
}

impl View for Error {
    type V = ErrorView;

    open spec fn view(&self) -> ErrorView {
        match self {
            Error::PlayerAlreadyExists { id, name } => ErrorView::PlayerAlreadyExists {
                id: id@,
                name: name@,
            },
            Error::NotExist => ErrorView::NotExist,
            Error::SQLX(cause) => ErrorView::SQLX(cause@),
            Error::Reqwest(text) => ErrorView::Reqwest(text@),
            Error::Any(text) => ErrorView::Any(text@),
            Error::Entropy => ErrorView::Entropy,
        }
    }
}

/// The status and body of the HTTP response that reports an error.
#[derive(Debug)]
pub struct ErrorResponse {
    pub status: u16,
    pub body: Option<String>,
}

impl ErrorView {
    /// The failure came from the identity provider.
    pub open spec fn is_upstream(self) -> bool {
        self is Reqwest || self is Any
    }

    /// The HTTP status of the failure: 400 for a conflict, 404 for a missing
    /// record, 500 for everything on the server's side.
    pub open spec fn status_code(self) -> u16 {
        match self {
            ErrorView::PlayerAlreadyExists { .. } => 400,
            ErrorView::NotExist => 404,
            _ => 500,
        }
    }

    /// The text that describes the failure.
    pub open spec fn message(self) -> Seq<char> {
        match self {
            ErrorView::PlayerAlreadyExists { id, name } => "Player with id "@ + id + " or name "@
                + name + " already exists"@,
            ErrorView::NotExist => "Entity is not exist"@,
            ErrorView::SQLX(cause) => "Sqlx error: "@ + cause.message(),
            ErrorView::Reqwest(text) => "Reqwest error: "@ + text,
            ErrorView::Any(text) => "Unknown error: "@ + text,
            ErrorView::Entropy => "Entropy source is unavailable"@,
        }
    }

    /// The body of the response: a JSON object with the message for a failure
    /// that the client can correct, nothing for one on the server's side.
    pub open spec fn body(self) -> Option<Seq<char>> {
        if 500 <= self.status_code() < 600 {
            None
        } else {
            Some("{\"error\":\""@ + self.message() + "\"}"@)
        }
    }
}

impl Error {
    /// The HTTP status that reports this error.
    pub fn status_code(&self) -> (status: u16)
        ensures
            status == self@.status_code(),
    {
        match self {
            Error::PlayerAlreadyExists { .. } => 400,
            Error::NotExist => 404,
            Error::SQLX(_) | Error::Reqwest(_) | Error::Any(_) | Error::Entropy => 500,
        }
    }

    /// The text that describes this error.
    pub fn message(&self) -> (text: String)
        ensures
            text@ == self@.message(),
    {
        match self {
            Error::PlayerAlreadyExists { id, name } => {
                let mut text = String::from_str("Player with id ");
                text.append(id.as_str());
                text.append(" or name ");
                text.append(name.as_str());
                text.append(" already exists");
                text
            },
            Error::NotExist => String::from_str("Entity is not exist"),
            Error::SQLX(cause) => {
                let mut text = String::from_str("Sqlx error: ");
                text.append(cause.message().as_str());
                text
            },
            Error::Reqwest(detail) => {
                let mut text = String::from_str("Reqwest error: ");
                text.append(detail.as_str());
                text
            },
            Error::Any(detail) => {
                let mut text = String::from_str("Unknown error: ");
                text.append(detail.as_str());
                text
            },
            Error::Entropy => String::from_str("Entropy source is unavailable"),
        }
    }

    /// The response that reports this error. A failure on the server's side
    /// gets no body, so that no internal detail leaves the server.
    pub fn error_response(&self) -> (response: ErrorResponse)
        ensures
            response.status == self@.status_code(),
            match response.body {
                Some(text) => self@.body() == Some(text@),
                None => self@.body() is None,
            },
    {
        let status = self.status_code();
        if 500 <= status && status < 600 {
            ErrorResponse { status, body: None }
        } else {
            let mut text = String::from_str("{\"error\":\"");
            text.append(self.message().as_str());
            text.append("\"}");
            ErrorResponse { status, body: Some(text) }
        }
    }
}

} // verus!
