//! The errors that a caller of the gateway sees.

use vstd::prelude::*;
use crate::error::{DbErrorKind, Error, ErrorKind as CoreErrorKind};
use crate::payment::{field_error_views, FieldError, FieldErrorView};
use crate::text::{join, joined};

verus! {

/// The kind of an error as a caller sees it.
#[derive(Clone, Copy, Debug, PartialEq, Eq, Structural)]
pub enum ErrorKind {
    /// The request is malformed or incomplete.
    Validation,
    /// Something that the request refers to does not exist.
    Resource,
    /// The gateway itself failed.
    Fatal,
}

/// An error as a caller sees it: its kind and a message.
#[derive(Debug, PartialEq, Eq)]
pub struct GatewayError {
    pub kind: ErrorKind,
    pub message: String,
}

/// The HTTP status that answers an error of a kind.
pub open spec fn status_of(kind: ErrorKind) -> u16 {
    match kind {
        ErrorKind::Validation => 400,
        ErrorKind::Resource => 404,
        ErrorKind::Fatal => 500,
    }
}

/// The name of a kind in the body of the answer.
pub open spec fn kind_name(kind: ErrorKind) -> Seq<char> {
    match kind {
        ErrorKind::Validation => "VALIDATION"@,
        ErrorKind::Resource => "RESOURCE"@,
        ErrorKind::Fatal => "FATAL"@,
    }
}

/// The kind that a caller sees for an error of the core: something that
/// was not found is a missing resource, everything else is fatal.
pub open spec fn gateway_kind(kind: CoreErrorKind) -> ErrorKind {
    match kind {
        CoreErrorKind::Database(DbErrorKind::Query) => ErrorKind::Resource,
        CoreErrorKind::Database(_) => ErrorKind::Fatal,
        CoreErrorKind::Type => ErrorKind::Fatal,
    }
}

/// The message that a caller sees for an error of the core: the error's
/// own message where something was not found, and a fixed one for
/// everything else, so that nothing of the gateway's inside is shown.
pub open spec fn gateway_message(kind: CoreErrorKind, message: Seq<char>) -> Seq<char> {
    match kind {
        CoreErrorKind::Database(DbErrorKind::Query) => message,
        CoreErrorKind::Database(_) => "internal error"@,
        CoreErrorKind::Type => "Unknown"@,
    }
}

/// What a caller sees of a fatal error does not depend on the error's own
/// message.
pub proof fn lemma_fatal_is_opaque(kind: CoreErrorKind, first: Seq<char>, second: Seq<char>)
    requires
        gateway_kind(kind) == ErrorKind::Fatal,
    ensures
        gateway_message(kind, first) == gateway_message(kind, second),
{
}

/// How one field error reads in a message.
pub open spec fn field_error_line(e: FieldErrorView) -> Seq<char> {
    e.field + " - "@ + e.message
}

/// The message for a list of field errors: one entry for each, in order,
/// separated by commas.
pub open spec fn field_errors_message(errors: Seq<FieldErrorView>) -> Seq<char> {
    joined(errors.map_values(|e: FieldErrorView| field_error_line(e)), ", "@)
}

impl Clone for GatewayError {
    fn clone(&self) -> (e: GatewayError)
        ensures
            e.kind == self.kind,
            e.message@ == self.message@,
    {
        GatewayError { kind: self.kind, message: self.message.clone() }
    }
}

impl GatewayError {
    /// Whether this error has the given kind and message.
    pub open spec fn says(&self, kind: ErrorKind, message: Seq<char>) -> bool {
        self.kind == kind && self.message@ == message
    }

    /// An error of the given kind with the given message.
    pub fn new(kind: ErrorKind, message: &str) -> (e: GatewayError)
        ensures
            e.says(kind, message@),
    {
        GatewayError { kind, message: message.to_string() }
    }

    /// The HTTP status that answers this error.
    pub fn status_code(&self) -> (code: u16)
        ensures
            code == status_of(self.kind),
    {
        match self.kind {
            ErrorKind::Validation => 400,
            ErrorKind::Resource => 404,
            ErrorKind::Fatal => 500,
        }
    }

    /// The name of this error's kind in the body of the answer.
    pub fn error_name(&self) -> (name: &'static str)
        ensures
            name@ == kind_name(self.kind),
    {
        match self.kind {
            ErrorKind::Validation => "VALIDATION",
            ErrorKind::Resource => "RESOURCE",
            ErrorKind::Fatal => "FATAL",
        }
    }

    /// The error as text: its message.
    pub fn to_string(&self) -> (text: String)
        ensures
            text@ == self.message@,
    {
        self.message.clone()
    }

    /// What a caller sees of an error of the core.
    pub fn from_error(value: Error) -> (e: GatewayError)
        ensures
            e.says(gateway_kind(value.kind), gateway_message(value.kind, value.message@)),
    {
        match value.kind {
            CoreErrorKind::Database(DbErrorKind::Query) => GatewayError {
                kind: ErrorKind::Resource,
                message: value.message,
            },
            CoreErrorKind::Database(_) => GatewayError {
                kind: ErrorKind::Fatal,
                message: "internal error".to_string(),
            },
            CoreErrorKind::Type => GatewayError {
                kind: ErrorKind::Fatal,
                message: "Unknown".to_string(),
            },
        }
    }

    /// What a caller sees of the violations of a payment instrument: a
    /// validation error that lists them all.
    pub fn from_field_errors(errors: &Vec<FieldError>) -> (e: GatewayError)
        ensures
            e.says(ErrorKind::Validation, field_errors_message(field_error_views(errors@))),
    {
        let mut lines: Vec<String> = Vec::new();
        let mut i: usize = 0;
        while i < errors.len()
            invariant
                i <= errors.len(),
                lines@.len() == i,
                forall|j: int|
                    0 <= j < i ==> (#[trigger] lines@[j])@ == field_error_line(errors@[j]@),
            decreases errors.len() - i,
        {
            let mut line = errors[i].field.clone();
            line.append(" - ");
            line.append(errors[i].message.as_str());
            lines.push(line);
            i += 1;
        }
        let message = join(&lines, ", ");
        assert(crate::text::texts(lines@) =~= field_error_views(errors@).map_values(
            |e: FieldErrorView| field_error_line(e),
        ));
        GatewayError { kind: ErrorKind::Validation, message }
    }
}

} // verus!
