use vstd::prelude::*;

use crate::error::{unit_result_view, Error, ErrorView};
use crate::pager::Id;
use crate::status::{status_code, status_from_rsvp, ReservationStatus, RsvpStatus};
use crate::time::{validate_range, window_valid, Timestamp};
use crate::Validator;

verus! {

/// Identifier that storage assigns to a reservation.
pub type ReservationId = i64;

/// A booking of one resource by one user over a time window.
#[derive(Debug, Clone)]
pub struct Reservation {
    pub id: i64,
    pub user_id: String,
    pub resource_id: String,
    pub start: Option<Timestamp>,
    pub end: Option<Timestamp>,
    pub note: String,
    pub status: i32,
}

pub struct ReservationView {
    pub id: i64,
    pub user_id: Seq<char>,
    pub resource_id: Seq<char>,
    pub start: Option<Timestamp>,
    pub end: Option<Timestamp>,
    pub note: Seq<char>,
    pub status: i32,
}

impl View for Reservation {
    type V = ReservationView;

    open spec fn view(&self) -> ReservationView {
        ReservationView {
            id: self.id,
            user_id: self.user_id@,
            resource_id: self.resource_id@,
            start: self.start,
            end: self.end,
            note: self.note@,
            status: self.status,
        }
    }
}

/// What `validate` reports for a reservation: the first missing identity,
/// else whether the window is well formed.
pub open spec fn reservation_validation(r: ReservationView) -> Result<(), ErrorView> {
    if r.user_id.len() == 0 {
        Err(ErrorView::InvalidUserId(r.user_id))
    } else if r.resource_id.len() == 0 {
        Err(ErrorView::InvalidResourceId(r.resource_id))
    } else if !window_valid(r.start, r.end) {
        Err(ErrorView::InvalidTime)
    } else {
        Ok(())
    }
}

/// The status every new reservation is stored with, whatever the caller
/// sent: only confirmation moves a reservation on from pending.
pub open spec fn stored_status() -> i32 {
    status_code(ReservationStatus::Pending) as i32
}

/// The status a new reservation is stored with.
pub fn initial_status() -> (r: ReservationStatus)
    ensures
        r == ReservationStatus::Pending,
        status_code(r) == stored_status(),
{
    ReservationStatus::Pending
}

/// An identifier that storage could have assigned.
pub open spec fn id_valid(id: i64) -> bool {
    id > 0
}

impl Reservation {
    /// A pending reservation, not yet stored (its id is 0).
    pub fn new_pending(uid: &str, rid: &str, start: Timestamp, end: Timestamp, note: &str) -> (r: Reservation)
        ensures
            r.id == 0,
            r.user_id@ == uid@,
            r.resource_id@ == rid@,
            r.start == Some(start),
            r.end == Some(end),
            r.note@ == note@,
            r.status == status_code(ReservationStatus::Pending),
    {
        Reservation {
            id: 0,
            user_id: uid.to_owned(),
            resource_id: rid.to_owned(),
            start: Some(start),
            end: Some(end),
            note: note.to_owned(),
            status: ReservationStatus::Pending.to_i32(),
        }
    }

    /// A copy with the same contents.
    pub fn duplicate(&self) -> (r: Reservation)
        ensures
            r@ == self@,
    {
        Reservation {
            id: self.id,
            user_id: self.user_id.clone(),
            resource_id: self.resource_id.clone(),
            start: self.start,
            end: self.end,
            note: self.note.clone(),
            status: self.status,
        }
    }

    /// Builds a reservation from the columns of a stored row. A window
    /// without both bounds cannot come from a valid row and is reported as a
    /// storage error.
    pub fn from_row_parts(
        id: i64,
        user_id: String,
        resource_id: String,
        start: Option<Timestamp>,
        end: Option<Timestamp>,
        note: String,
        status: RsvpStatus,
    ) -> (r: Result<Reservation, Error>)
        ensures
            r is Ok <==> (start is Some && end is Some),
            r matches Ok(v) ==> v@ == (ReservationView {
                id,
                user_id: user_id@,
                resource_id: resource_id@,
                start,
                end,
                note: note@,
                status: status_code(status_from_rsvp(status)) as i32,
            }),
            r matches Err(e) ==> e is DbError,
    {
        if start.is_none() || end.is_none() {
            return Err(Error::DbError("reservation row has an unbounded window".to_owned()));
        }
        let status = ReservationStatus::from_rsvp(status).to_i32();
        Ok(Reservation { id, user_id, resource_id, start, end, note, status })
    }
}

impl Validator for Reservation {
    fn validate(&self) -> (r: Result<(), Error>)
        ensures
            unit_result_view(r) == reservation_validation(self@),
    {
        if self.user_id.as_str().is_empty() {
            return Err(Error::InvalidUserId(self.user_id.clone()));
        }
        if self.resource_id.as_str().is_empty() {
            return Err(Error::InvalidResourceId(self.resource_id.clone()));
        }
        validate_range(self.start, self.end)
    }
}

impl Validator for ReservationId {
    fn validate(&self) -> (r: Result<(), Error>)
        ensures
            r is Ok <==> id_valid(*self),
            r is Err ==> r == Err::<(), Error>(Error::InvalidReservationId(*self)),
    {
        if *self <= 0 {
            Err(Error::InvalidReservationId(*self))
        } else {
            Ok(())
        }
    }
}

impl Id for Reservation {
    open spec fn spec_id(&self) -> i64 {
        self.id
    }

    fn id(&self) -> (r: i64) {
        self.id
    }
}

impl PartialEq for Reservation {
    fn eq(&self, other: &Reservation) -> (r: bool) {
        self.id == other.id && self.user_id.eq(&other.user_id) && self.resource_id.eq(
            &other.resource_id,
        ) && self.start == other.start && self.end == other.end && self.note.eq(&other.note)
            && self.status == other.status
    }
}

impl vstd::std_specs::cmp::PartialEqSpecImpl for Reservation {
    open spec fn obeys_eq_spec() -> bool {
        true
    }

    open spec fn eq_spec(&self, other: &Reservation) -> bool {
        self@ == other@
    }
}

} // verus!
