use vstd::prelude::*;

use crate::text::same_text;

verus! {

/// Lifecycle state of a reservation. `Unknown` only marks an unset field.
#[derive(Debug, Clone, Copy, PartialEq, Eq, Structural)]
pub enum ReservationStatus {
    Unknown,
    Pending,
    Confirmed,
    Blocked,
}

/// Storage-side spelling of the status enumeration.
#[derive(Debug, Clone, Copy, PartialEq, Eq, Structural)]
pub enum RsvpStatus {
    Unknown,
    Pending,
    Confirmed,
    Blocked,
}

/// The integer code of each status on the wire.
pub open spec fn status_code(s: ReservationStatus) -> int {
    match s {
        ReservationStatus::Unknown => 0,
        ReservationStatus::Pending => 1,
        ReservationStatus::Confirmed => 2,
        ReservationStatus::Blocked => 3,
    }
}

/// The status whose code is `v`, if any.
pub open spec fn status_of_code(v: int) -> Option<ReservationStatus> {
    if v == 0 {
        Some(ReservationStatus::Unknown)
    } else if v == 1 {
        Some(ReservationStatus::Pending)
    } else if v == 2 {
        Some(ReservationStatus::Confirmed)
    } else if v == 3 {
        Some(ReservationStatus::Blocked)
    } else {
        None
    }
}

/// The lower-case name of a status, as storage spells it.
pub open spec fn status_name(s: ReservationStatus) -> Seq<char> {
    match s {
        ReservationStatus::Unknown => "unknown"@,
        ReservationStatus::Pending => "pending"@,
        ReservationStatus::Confirmed => "confirmed"@,
        ReservationStatus::Blocked => "blocked"@,
    }
}

impl ReservationStatus {
    pub fn from_i32(v: i32) -> (r: Option<ReservationStatus>)
        ensures
            r == status_of_code(v as int),
    {
        match v {
            0 => Some(ReservationStatus::Unknown),
            1 => Some(ReservationStatus::Pending),
            2 => Some(ReservationStatus::Confirmed),
            3 => Some(ReservationStatus::Blocked),
            _ => None,
        }
    }

    pub fn to_i32(self) -> (r: i32)
        ensures
            r as int == status_code(self),
            status_of_code(r as int) == Some(self),
    {
        match self {
            ReservationStatus::Unknown => 0,
            ReservationStatus::Pending => 1,
            ReservationStatus::Confirmed => 2,
            ReservationStatus::Blocked => 3,
        }
    }

    /// The lower-case name of the status.
    pub fn as_str(&self) -> (r: &'static str)
        ensures
            r@ == status_name(*self),
    {
        match self {
            ReservationStatus::Unknown => "unknown",
            ReservationStatus::Pending => "pending",
            ReservationStatus::Confirmed => "confirmed",
            ReservationStatus::Blocked => "blocked",
        }
    }

    pub fn from_rsvp(value: RsvpStatus) -> (r: ReservationStatus)
        ensures
            r == status_from_rsvp(value),
    {
        match value {
            RsvpStatus::Unknown => ReservationStatus::Unknown,
            RsvpStatus::Pending => ReservationStatus::Pending,
            RsvpStatus::Confirmed => ReservationStatus::Confirmed,
            RsvpStatus::Blocked => ReservationStatus::Blocked,
        }
    }
}

/// The storage status spelled `name`; any other text is `Unknown`.
pub open spec fn rsvp_status_named(name: Seq<char>) -> RsvpStatus {
    if name == "pending"@ {
        RsvpStatus::Pending
    } else if name == "confirmed"@ {
        RsvpStatus::Confirmed
    } else if name == "blocked"@ {
        RsvpStatus::Blocked
    } else {
        RsvpStatus::Unknown
    }
}

impl RsvpStatus {
    /// Reads the lower-case name that storage uses for a status.
    pub fn from_name(name: &str) -> (r: RsvpStatus)
        ensures
            r == rsvp_status_named(name@),
    {
        if same_text(name, "pending") {
            RsvpStatus::Pending
        } else if same_text(name, "confirmed") {
            RsvpStatus::Confirmed
        } else if same_text(name, "blocked") {
            RsvpStatus::Blocked
        } else {
            RsvpStatus::Unknown
        }
    }
}

impl From<RsvpStatus> for ReservationStatus {
    fn from(value: RsvpStatus) -> (r: ReservationStatus) {
        ReservationStatus::from_rsvp(value)
    }
}

impl vstd::std_specs::convert::FromSpecImpl<RsvpStatus> for ReservationStatus {
    open spec fn obeys_from_spec() -> bool {
        true
    }

    open spec fn from_spec(value: RsvpStatus) -> ReservationStatus {
        status_from_rsvp(value)
    }
}

pub open spec fn status_from_rsvp(value: RsvpStatus) -> ReservationStatus {
    match value {
        RsvpStatus::Unknown => ReservationStatus::Unknown,
        RsvpStatus::Pending => ReservationStatus::Pending,
        RsvpStatus::Confirmed => ReservationStatus::Confirmed,
        RsvpStatus::Blocked => ReservationStatus::Blocked,
    }
}

} // verus!
