use vstd::prelude::*;

use crate::error::{unit_result_view, Error, ErrorView};
use crate::status::{status_of_code, ReservationStatus};
use crate::time::{validate_range, window_valid, Timestamp};
use crate::Validator;

verus! {

/// A bulk search: optional identity filters, an optional time window and a status.
#[derive(Debug, Clone)]
pub struct ReservationQuery {
    pub resource_id: String,
    pub user_id: String,
    pub status: i32,
    pub start: Option<Timestamp>,
    pub end: Option<Timestamp>,
    pub page: i32,
    pub page_size: i64,
    pub desc: bool,
}

pub struct QueryView {
    pub resource_id: Seq<char>,
    pub user_id: Seq<char>,
    pub status: i32,
    pub start: Option<Timestamp>,
    pub end: Option<Timestamp>,
    pub desc: bool,
}

impl View for ReservationQuery {
    type V = QueryView;

    open spec fn view(&self) -> QueryView {
        QueryView {
            resource_id: self.resource_id@,
            user_id: self.user_id@,
            status: self.status,
            start: self.start,
            end: self.end,
            desc: self.desc,
        }
    }
}

/// The status a query searches for: pending unless a stored status is named.
pub open spec fn query_status(code: i32) -> ReservationStatus {
    match status_of_code(code as int) {
        Some(ReservationStatus::Confirmed) => ReservationStatus::Confirmed,
        Some(ReservationStatus::Blocked) => ReservationStatus::Blocked,
        _ => ReservationStatus::Pending,
    }
}

/// A query restricts time when either bound is given.
pub open spec fn has_window(q: QueryView) -> bool {
    q.start is Some || q.end is Some
}

/// What a query is checked against before it runs: a window, when given, is
/// complete and not empty.
pub open spec fn query_validation(q: QueryView) -> Result<(), ErrorView> {
    if has_window(q) && !window_valid(q.start, q.end) {
        Err(ErrorView::InvalidTime)
    } else {
        Ok(())
    }
}

/// `None` for the empty text, the text otherwise.
pub fn string_to_option(s: &str) -> (r: Option<String>)
    ensures
        r is None <==> s@.len() == 0,
        r matches Some(v) ==> v@ == s@,
{
    if s.is_empty() {
        None
    } else {
        Some(s.to_owned())
    }
}

impl ReservationQuery {
    /// The status the query searches for.
    pub fn effective_status(&self) -> (r: ReservationStatus)
        ensures
            r == query_status(self.status),
    {
        match ReservationStatus::from_i32(self.status) {
            Some(ReservationStatus::Confirmed) => ReservationStatus::Confirmed,
            Some(ReservationStatus::Blocked) => ReservationStatus::Blocked,
            _ => ReservationStatus::Pending,
        }
    }

    /// Checks the window when the query restricts time.
    pub fn check(&self) -> (r: Result<(), Error>)
        ensures
            unit_result_view(r) == query_validation(self@),
    {
        if self.start.is_some() || self.end.is_some() {
            self.validate()
        } else {
            Ok(())
        }
    }
}

impl Validator for ReservationQuery {
    fn validate(&self) -> (r: Result<(), Error>)
        ensures
            r is Ok <==> window_valid(self.start, self.end),
            r is Err ==> r == Err::<(), Error>(Error::InvalidTime),
    {
        validate_range(self.start, self.end)
    }
}

} // verus!
