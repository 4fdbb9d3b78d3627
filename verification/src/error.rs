//! The error type of the core, and how database failures map into it.

use vstd::prelude::*;

verus! {

/// Which part of a database call failed.
#[derive(Clone, Copy, Debug, PartialEq, Eq, Structural)]
pub enum DbErrorKind {
    /// The query ran and matched nothing.
    Query,
    /// The database could not be reached.
    Connection,
    /// Anything else the driver reported.
    Other,
}

/// The kind of a core error.
#[derive(Clone, Copy, Debug, PartialEq, Eq, Structural)]
pub enum ErrorKind {
    Database(DbErrorKind),
    Type,
}

/// An error of the core: its kind and a message for the caller.
#[derive(Debug, PartialEq, Eq)]
pub struct Error {
    pub kind: ErrorKind,
    pub message: String,
}

/// What a failed database call reported, as far as the gateway tells
/// failures apart.
#[derive(Clone, Copy, Debug, PartialEq, Eq, Structural)]
pub enum DbFailure {
    /// The query matched no row.
    RowNotFound,
    /// Any other failure: configuration, connection, protocol, decoding.
    Other,
}

/// The name of a database error kind.
pub open spec fn db_error_kind_name(kind: DbErrorKind) -> Seq<char> {
    match kind {
        DbErrorKind::Query => "Query"@,
        DbErrorKind::Connection => "Connection"@,
        DbErrorKind::Other => "Other"@,
    }
}

/// The text of an error: its kind in front of the message.
pub open spec fn error_text(kind: ErrorKind, message: Seq<char>) -> Seq<char> {
    match kind {
        ErrorKind::Database(db) => "DatabaseError ["@ + db_error_kind_name(db) + "]: "@ + message,
        ErrorKind::Type => "TypeError: "@ + message,
    }
}

/// The kind of the error that a database failure becomes.
pub open spec fn failure_kind(failure: DbFailure) -> ErrorKind {
    match failure {
        DbFailure::RowNotFound => ErrorKind::Database(DbErrorKind::Query),
        DbFailure::Other => ErrorKind::Database(DbErrorKind::Other),
    }
}

/// The message of the error that a database failure becomes. The driver's
/// own words never appear in it.
pub open spec fn failure_message(failure: DbFailure) -> Seq<char> {
    match failure {
        DbFailure::RowNotFound => "no records returned"@,
        DbFailure::Other => "internal database error"@,
    }
}

impl DbErrorKind {
    /// The name of the kind.
    pub fn to_string(&self) -> (name: String)
        ensures
            name@ == db_error_kind_name(*self),
    {
        match self {
            DbErrorKind::Query => "Query".to_string(),
            DbErrorKind::Connection => "Connection".to_string(),
            DbErrorKind::Other => "Other".to_string(),
        }
    }
}

impl Clone for Error {
    fn clone(&self) -> (e: Error)
        ensures
            e.kind == self.kind,
            e.message@ == self.message@,
    {
        Error { kind: self.kind, message: self.message.clone() }
    }
}

impl Error {
    /// Whether this error has the given kind and message.
    pub open spec fn says(&self, kind: ErrorKind, message: Seq<char>) -> bool {
        self.kind == kind && self.message@ == message
    }

    /// An error of the given kind with the given message.
    pub fn new(kind: ErrorKind, message: &str) -> (e: Error)
        ensures
            e.says(kind, message@),
    {
        Error { kind, message: message.to_string() }
    }

    /// The error's kind.
    pub fn kind(&self) -> (kind: ErrorKind)
        ensures
            kind == self.kind,
    {
        self.kind
    }

    /// The error's message.
    pub fn message(&self) -> (message: &str)
        ensures
            message@ == self.message@,
    {
        self.message.as_str()
    }

    /// The error as text: `DatabaseError [<kind>]: <message>` or
    /// `TypeError: <message>`.
    pub fn to_string(&self) -> (text: String)
        ensures
            text@ == error_text(self.kind, self.message@),
    {
        match self.kind {
            ErrorKind::Database(db) => {
                let mut text = "DatabaseError [".to_string();
                let name = db.to_string();
                text.append(name.as_str());
                text.append("]: ");
                text.append(self.message.as_str());
                text
            },
            ErrorKind::Type => {
                let mut text = "TypeError: ".to_string();
                text.append(self.message.as_str());
                text
            },
        }
    }

    /// The error that a database failure becomes: a missing row is a query
    /// error, anything else an error of kind `Other` with a generic message.
    pub fn from_failure(failure: DbFailure) -> (e: Error)
        ensures
            e.says(failure_kind(failure), failure_message(failure)),
    {
        match failure {
            DbFailure::RowNotFound => Error {
                kind: ErrorKind::Database(DbErrorKind::Query),
                message: "no records returned".to_string(),
            },
            DbFailure::Other => Error {
                kind: ErrorKind::Database(DbErrorKind::Other),
                message: "internal database error".to_string(),
            },
        }
    }
}

} // verus!
