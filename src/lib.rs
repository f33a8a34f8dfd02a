//! Reservation management: time windows, conflict diagnostics, keyset
//! paging, filter normalization and the reservation lifecycle.

pub mod config;
pub mod conflict;
pub mod error;
pub mod filter;
pub mod manager;
pub mod pager;
pub mod query;
pub mod reservation;
pub mod status;
pub mod text;
pub mod time;

pub use config::{default_pool_size, Config, DbConfig, ServerConfig};
pub use conflict::{FieldMap, ParsedInfo, ReservationConflict, ReservationConflictInfo, ReservationWindow};
pub use error::{Error, ErrorClass, StorageFailure};
pub use filter::{FilterPager, ReservationFilter, ReservationFilterBuilder, MAX_PAGE_SIZE, MIN_PAGE_SIZE};
pub use query::{string_to_option, ReservationQuery};
pub use manager::ReservationManager;
pub use pager::{Id, PageInfo, Pager, Paginator};
pub use reservation::{initial_status, Reservation, ReservationId};
pub use status::{ReservationStatus, RsvpStatus};
pub use time::{parse_str_into_datetime_utc, validate_range, Timestamp};

use vstd::prelude::*;

verus! {

/// Checks a request before any storage work is done.
pub trait Validator {
    fn validate(&self) -> Result<(), Error>;
}

/// Validates a request, then rewrites defaulted fields to their effective values.
pub trait Normalizer: Validator {
    fn normalize(&mut self) -> Result<(), Error>;

    fn do_normalize(&mut self);
}

/// Renders a request as the storage query that answers it.
pub trait ToSql {
    fn to_sql(&self) -> Result<String, Error>;
}

} // verus!
