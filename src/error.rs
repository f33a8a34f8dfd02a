use vstd::prelude::*;

use crate::conflict::{conflict_info_of, ConflictInfoView, ReservationConflictInfo};
use crate::text::{decimal, push_decimal, push_str, same_text, string_of_chars};

verus! {

/// Errors of the reservation core.
#[derive(Debug)]
pub enum Error {
    DbError(String),
    ConfigReadError,
    ConfigParseError,
    ConflictReservation(ReservationConflictInfo),
    ReservationNotFound,
    InvalidReservationId(i64),
    InvalidTime,
    InvalidUserId(String),
    InvalidResourceId(String),
    InvalidPageSize(i64),
    InvalidCursor(i64),
    InvalidStatus(i32),
    Unknown,
}

pub enum ErrorView {
    DbError(Seq<char>),
    ConfigReadError,
    ConfigParseError,
    ConflictReservation(ConflictInfoView),
    ReservationNotFound,
    InvalidReservationId(i64),
    InvalidTime,
    InvalidUserId(Seq<char>),
    InvalidResourceId(Seq<char>),
    InvalidPageSize(i64),
    InvalidCursor(i64),
    InvalidStatus(i32),
    Unknown,
}

impl View for Error {
    type V = ErrorView;

    open spec fn view(&self) -> ErrorView {
        match self {
            Error::DbError(m) => ErrorView::DbError(m@),
            Error::ConfigReadError => ErrorView::ConfigReadError,
            Error::ConfigParseError => ErrorView::ConfigParseError,
            Error::ConflictReservation(c) => ErrorView::ConflictReservation(c@),
            Error::ReservationNotFound => ErrorView::ReservationNotFound,
            Error::InvalidReservationId(v) => ErrorView::InvalidReservationId(*v),
            Error::InvalidTime => ErrorView::InvalidTime,
            Error::InvalidUserId(v) => ErrorView::InvalidUserId(v@),
            Error::InvalidResourceId(v) => ErrorView::InvalidResourceId(v@),
            Error::InvalidPageSize(v) => ErrorView::InvalidPageSize(*v),
            Error::InvalidCursor(v) => ErrorView::InvalidCursor(*v),
            Error::InvalidStatus(v) => ErrorView::InvalidStatus(*v),
            Error::Unknown => ErrorView::Unknown,
        }
    }
}

/// Two errors are equal when they are of the same kind and carry the same
/// details; storage errors compare by kind alone.
pub open spec fn errors_equal(a: ErrorView, b: ErrorView) -> bool {
    match (a, b) {
        (ErrorView::DbError(_), ErrorView::DbError(_)) => true,
        _ => a == b,
    }
}

/// The outcome of a check, with the error seen through its view.
pub open spec fn unit_result_view(r: Result<(), Error>) -> Result<(), ErrorView> {
    match r {
        Ok(_) => Ok(()),
        Err(e) => Err(e@),
    }
}

impl PartialEq for Error {
    fn eq(&self, other: &Error) -> (r: bool) {
        match (self, other) {
            (Error::DbError(_), Error::DbError(_)) => true,
            (Error::ConfigReadError, Error::ConfigReadError) => true,
            (Error::ConfigParseError, Error::ConfigParseError) => true,
            (Error::ConflictReservation(a), Error::ConflictReservation(b)) => a.eq(b),
            (Error::ReservationNotFound, Error::ReservationNotFound) => true,
            (Error::InvalidReservationId(a), Error::InvalidReservationId(b)) => *a == *b,
            (Error::InvalidTime, Error::InvalidTime) => true,
            (Error::InvalidUserId(a), Error::InvalidUserId(b)) => a.eq(b),
            (Error::InvalidResourceId(a), Error::InvalidResourceId(b)) => a.eq(b),
            (Error::InvalidPageSize(a), Error::InvalidPageSize(b)) => *a == *b,
            (Error::InvalidCursor(a), Error::InvalidCursor(b)) => *a == *b,
            (Error::InvalidStatus(a), Error::InvalidStatus(b)) => *a == *b,
            (Error::Unknown, Error::Unknown) => true,
            _ => false,
        }
    }
}

impl vstd::std_specs::cmp::PartialEqSpecImpl for Error {
    open spec fn obeys_eq_spec() -> bool {
        true
    }

    open spec fn eq_spec(&self, other: &Error) -> bool {
        errors_equal(self@, other@)
    }
}

/// How a caller should treat an error: a fault of the service, a request
/// that cannot be served in the current state, or neither.
#[derive(Debug, Clone, Copy, PartialEq, Eq, Structural)]
pub enum ErrorClass {
    Internal,
    FailedPrecondition,
    Unknown,
}

pub open spec fn error_class(e: ErrorView) -> ErrorClass {
    match e {
        ErrorView::DbError(_) | ErrorView::ConfigReadError | ErrorView::ConfigParseError
        | ErrorView::InvalidPageSize(_) | ErrorView::InvalidStatus(_) | ErrorView::InvalidCursor(
            _,
        ) => ErrorClass::Internal,
        ErrorView::ConflictReservation(_) | ErrorView::ReservationNotFound
        | ErrorView::InvalidReservationId(_) | ErrorView::InvalidTime | ErrorView::InvalidUserId(_)
        | ErrorView::InvalidResourceId(_) => ErrorClass::FailedPrecondition,
        ErrorView::Unknown => ErrorClass::Unknown,
    }
}

/// The human-readable text of an error.
pub open spec fn error_message(e: ErrorView) -> Seq<char> {
    match e {
        ErrorView::DbError(_) => "Database error"@,
        ErrorView::ConfigReadError => "read config.toml failed"@,
        ErrorView::ConfigParseError => "parse config.toml failed"@,
        ErrorView::ConflictReservation(_) => "Reservation Conflict Error."@,
        ErrorView::ReservationNotFound => "No reservation found by the given query condition to confirm."@,
        ErrorView::InvalidReservationId(v) => "Invalid reservation id: "@ + decimal(v as int),
        ErrorView::InvalidTime => "Invalid start or end time for the reservation"@,
        ErrorView::InvalidUserId(v) => "Invalid user id: "@ + v,
        ErrorView::InvalidResourceId(v) => "Invalid resource id: "@ + v,
        ErrorView::InvalidPageSize(v) => "Invalid page size :"@ + decimal(v as int),
        ErrorView::InvalidCursor(v) => "Invalid cursor :"@ + decimal(v as int),
        ErrorView::InvalidStatus(v) => "Invalid status: "@ + decimal(v as int),
        ErrorView::Unknown => "unknown error"@,
    }
}

/// A failure reported by the storage layer, as plain values.
#[derive(Debug, Clone)]
pub enum StorageFailure {
    /// The statement matched no row.
    RowNotFound,
    /// The database refused the statement.
    Database {
        code: String,
        schema: Option<String>,
        table: Option<String>,
        detail: Option<String>,
        message: String,
    },
    /// Any other failure: connection, protocol, decoding.
    Other(String),
}

pub open spec fn text_of(s: Option<String>) -> Seq<char> {
    match s {
        Some(t) => t@,
        None => Seq::empty(),
    }
}

/// The exclusion constraint of the reservation table was violated.
pub open spec fn is_exclusion_violation(code: Seq<char>, schema: Option<String>, table: Option<String>) -> bool {
    &&& code == "23P01"@
    &&& text_of(schema) == "rsvp"@ && schema is Some
    &&& text_of(table) == "reservation"@ && table is Some
}

/// The error a storage failure stands for: a violated exclusion becomes a
/// conflict decoded from the diagnostic detail, a missing row becomes not
/// found, and anything else a storage error.
pub open spec fn storage_error(f: StorageFailure) -> ErrorView {
    match f {
        StorageFailure::RowNotFound => ErrorView::ReservationNotFound,
        StorageFailure::Database { code, schema, table, detail, message } => if is_exclusion_violation(
            code@,
            schema,
            table,
        ) {
            ErrorView::ConflictReservation(conflict_info_of(text_of(detail)))
        } else {
            ErrorView::DbError(message@)
        },
        StorageFailure::Other(m) => ErrorView::DbError(m@),
    }
}

fn names(s: &Option<String>, expected: &str) -> (r: bool)
    ensures
        r == (s is Some && text_of(*s) == expected@),
{
    match s {
        Some(t) => same_text(t.as_str(), expected),
        None => false,
    }
}

impl Error {
    /// Classifies a storage failure.
    pub fn from_storage(f: StorageFailure) -> (r: Error)
        ensures
            r@ == storage_error(f),
    {
        match f {
            StorageFailure::RowNotFound => Error::ReservationNotFound,
            StorageFailure::Database { code, schema, table, detail, message } => {
                if same_text(code.as_str(), "23P01") && names(&schema, "rsvp") && names(
                    &table,
                    "reservation",
                ) {
                    let info = match &detail {
                        Some(d) => ReservationConflictInfo::from_str(d.as_str()),
                        None => ReservationConflictInfo::from_str(""),
                    };
                    proof {
                        if detail is None {
                            assert(""@ =~= Seq::<char>::empty()) by {
                                reveal_strlit("");
                            }
                        }
                    }
                    Error::ConflictReservation(info)
                } else {
                    Error::DbError(message)
                }
            },
            StorageFailure::Other(m) => Error::DbError(m),
        }
    }

    pub fn class(&self) -> (r: ErrorClass)
        ensures
            r == error_class(self@),
    {
        match self {
            Error::DbError(_) | Error::ConfigReadError | Error::ConfigParseError
            | Error::InvalidPageSize(_) | Error::InvalidStatus(_) | Error::InvalidCursor(_) => {
                ErrorClass::Internal
            },
            Error::ConflictReservation(_) | Error::ReservationNotFound
            | Error::InvalidReservationId(_) | Error::InvalidTime | Error::InvalidUserId(_)
            | Error::InvalidResourceId(_) => ErrorClass::FailedPrecondition,
            Error::Unknown => ErrorClass::Unknown,
        }
    }

    /// The human-readable text of the error.
    pub fn message(&self) -> (r: String)
        ensures
            r@ == error_message(self@),
    {
        let mut buf: Vec<char> = Vec::new();
        match self {
            Error::DbError(_) => push_str(&mut buf, "Database error"),
            Error::ConfigReadError => push_str(&mut buf, "read config.toml failed"),
            Error::ConfigParseError => push_str(&mut buf, "parse config.toml failed"),
            Error::ConflictReservation(_) => push_str(&mut buf, "Reservation Conflict Error."),
            Error::ReservationNotFound => push_str(
                &mut buf,
                "No reservation found by the given query condition to confirm.",
            ),
            Error::InvalidReservationId(v) => {
                push_str(&mut buf, "Invalid reservation id: ");
                push_decimal(&mut buf, *v as i128);
            },
            Error::InvalidTime => push_str(&mut buf, "Invalid start or end time for the reservation"),
            Error::InvalidUserId(v) => {
                push_str(&mut buf, "Invalid user id: ");
                push_str(&mut buf, v.as_str());
            },
            Error::InvalidResourceId(v) => {
                push_str(&mut buf, "Invalid resource id: ");
                push_str(&mut buf, v.as_str());
            },
            Error::InvalidPageSize(v) => {
                push_str(&mut buf, "Invalid page size :");
                push_decimal(&mut buf, *v as i128);
            },
            Error::InvalidCursor(v) => {
                push_str(&mut buf, "Invalid cursor :");
                push_decimal(&mut buf, *v as i128);
            },
            Error::InvalidStatus(v) => {
                push_str(&mut buf, "Invalid status: ");
                push_decimal(&mut buf, *v as i128);
            },
            Error::Unknown => push_str(&mut buf, "unknown error"),
        }
        assert(buf@ =~= error_message(self@));
        string_of_chars(&buf)
    }
}

} // verus!
