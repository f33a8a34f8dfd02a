use vstd::prelude::*;

use std::collections::VecDeque;

use crate::error::{unit_result_view, Error, ErrorView};
use crate::pager::{ids_of, next_cursor, page_rows, prev_cursor, Id, PageInfo, Pager, Paginator};
use crate::status::{status_name, status_of_code, ReservationStatus};
use crate::text::{decimal, push_decimal, push_str, string_of_chars};
use crate::{Normalizer, ToSql, Validator};

verus! {

/// Smallest page a filter may ask for.
pub const MIN_PAGE_SIZE: i64 = 10;

/// Largest page a filter may ask for.
pub const MAX_PAGE_SIZE: i64 = 100;

/// A one-page search by identity and status, paged by id.
#[derive(Debug, Clone)]
pub struct ReservationFilter {
    pub resource_id: String,
    pub user_id: String,
    pub status: i32,
    pub cursor: Option<i64>,
    pub page_size: i64,
    pub desc: bool,
}

/// Cursors of the pages next to a filter result.
#[derive(Debug, Clone, Copy, PartialEq, Eq, Structural)]
pub struct FilterPager {
    pub prev: Option<i64>,
    pub next: Option<i64>,
    pub total: Option<i64>,
}

pub struct FilterView {
    pub resource_id: Seq<char>,
    pub user_id: Seq<char>,
    pub status: i32,
    pub cursor: Option<i64>,
    pub page_size: i64,
    pub desc: bool,
}

impl View for ReservationFilter {
    type V = FilterView;

    open spec fn view(&self) -> FilterView {
        FilterView {
            resource_id: self.resource_id@,
            user_id: self.user_id@,
            status: self.status,
            cursor: self.cursor,
            page_size: self.page_size,
            desc: self.desc,
        }
    }
}

/// What `validate` reports: page size first, then cursor, then status code.
pub open spec fn filter_validation(f: FilterView) -> Result<(), ErrorView> {
    if f.page_size < MIN_PAGE_SIZE || f.page_size > MAX_PAGE_SIZE {
        Err(ErrorView::InvalidPageSize(f.page_size))
    } else if f.cursor matches Some(c) && c < 0 {
        Err(ErrorView::InvalidCursor(f.cursor->0))
    } else if status_of_code(f.status as int) is None {
        Err(ErrorView::InvalidStatus(f.status))
    } else {
        Ok(())
    }
}

/// The status a filter searches for: an unset status means pending.
pub open spec fn effective_status(code: i32) -> i32 {
    if code == 0 {
        1
    } else {
        code
    }
}

/// The filter with its defaults filled in.
pub open spec fn normalized(f: FilterView) -> FilterView {
    FilterView { status: effective_status(f.status), ..f }
}

/// The first id a page may hold: the cursor, else the start of the id range
/// in the requested direction.
pub open spec fn cursor_or_default(f: FilterView) -> i64 {
    match f.cursor {
        Some(c) => c,
        None => if f.desc {
            i64::MAX
        } else {
            0
        },
    }
}

/// How many rows to fetch: the page, one row to detect a next page, and the
/// cursor row itself when a cursor is given.
pub open spec fn row_limit(f: FilterView) -> int {
    f.page_size + 1 + if f.cursor is Some {
        1int
    } else {
        0int
    }
}

/// The identity condition: both ids, one of them, or none.
pub open spec fn identity_clause(user_id: Seq<char>, resource_id: Seq<char>) -> Seq<char> {
    if user_id.len() == 0 && resource_id.len() == 0 {
        " AND TRUE"@
    } else if user_id.len() == 0 {
        " AND resource_id = '"@ + resource_id + "'"@
    } else if resource_id.len() == 0 {
        " AND user_id = '"@ + user_id + "'"@
    } else {
        " AND user_id = '"@ + user_id + "' AND resource_id = '"@ + resource_id + "'"@
    }
}

/// The storage query for a filter whose status is `status`.
pub open spec fn filter_sql(f: FilterView, status: ReservationStatus) -> Seq<char> {
    "SELECT * FROM rsvp.reservation WHERE status='"@ + status_name(status)
        + "'::rsvp.reservation_status"@ + (if f.desc {
        " AND id <= "@
    } else {
        " AND id >= "@
    }) + decimal(cursor_or_default(f) as int) + identity_clause(f.user_id, f.resource_id)
        + " ORDER BY id "@ + (if f.desc {
        "DESC"@
    } else {
        "ASC"@
    }) + " LIMIT "@ + decimal(row_limit(f))
}

impl ReservationFilter {
    pub fn page_info(&self) -> (r: PageInfo)
        ensures
            r == (PageInfo { cursor: self.cursor, page_size: self.page_size, desc: self.desc }),
    {
        PageInfo { cursor: self.cursor, page_size: self.page_size, desc: self.desc }
    }

    /// Trims a fetched batch to the page and reports the neighbouring cursors.
    pub fn get_pager<T: Id>(&self, data: &mut VecDeque<T>) -> (r: FilterPager)
        ensures
            final(data)@ == page_rows(self.cursor is Some, self.page_size as int, old(data)@),
            r.prev == prev_cursor(self.cursor is Some, ids_of(old(data)@)),
            r.next == next_cursor(self.cursor is Some, self.page_size as int, ids_of(old(data)@)),
            r.total is None,
    {
        let page_info = self.page_info();
        let pager = page_info.get_pager(data);
        FilterPager::from(pager)
    }

    /// The id where the page starts.
    pub fn get_cursor(&self) -> (r: i64)
        ensures
            r == cursor_or_default(self@),
    {
        match self.cursor {
            Some(c) => c,
            None => if self.desc {
                i64::MAX
            } else {
                0
            },
        }
    }

    pub fn get_status(&self) -> (r: ReservationStatus)
        requires
            status_of_code(self.status as int) is Some,
        ensures
            status_of_code(self.status as int) == Some(r),
    {
        match ReservationStatus::from_i32(self.status) {
            Some(s) => s,
            None => ReservationStatus::Unknown,
        }
    }

    /// The filter for the following page, when there is one.
    pub fn next_page(&self, pager: &FilterPager) -> (r: Option<ReservationFilter>)
        ensures
            r is Some <==> pager.next is Some,
            r matches Some(f) ==> f@ == (FilterView { cursor: pager.next, ..self@ }),
    {
        let page_info = self.page_info();
        let next_page_info = page_info.next_page(&Pager::from(pager));
        match next_page_info {
            Some(info) => Some(
                ReservationFilter {
                    resource_id: self.resource_id.clone(),
                    user_id: self.user_id.clone(),
                    status: self.status,
                    cursor: info.cursor,
                    page_size: info.page_size,
                    desc: info.desc,
                },
            ),
            None => None,
        }
    }
}

impl Validator for ReservationFilter {
    fn validate(&self) -> (r: Result<(), Error>)
        ensures
            unit_result_view(r) == filter_validation(self@),
    {
        if self.page_size < MIN_PAGE_SIZE || self.page_size > MAX_PAGE_SIZE {
            return Err(Error::InvalidPageSize(self.page_size));
        }
        if let Some(cursor) = self.cursor {
            if cursor < 0 {
                return Err(Error::InvalidCursor(cursor));
            }
        }
        match ReservationStatus::from_i32(self.status) {
            Some(_) => Ok(()),
            None => Err(Error::InvalidStatus(self.status)),
        }
    }
}

impl Normalizer for ReservationFilter {
    fn normalize(&mut self) -> (r: Result<(), Error>)
        ensures
            unit_result_view(r) == filter_validation(old(self)@),
            r is Ok ==> final(self)@ == normalized(old(self)@),
            r is Err ==> final(self)@ == old(self)@,
    {
        self.validate()?;
        self.do_normalize();
        Ok(())
    }

    fn do_normalize(&mut self)
        ensures
            final(self)@ == normalized(old(self)@),
    {
        if self.status == ReservationStatus::Unknown.to_i32() {
            self.status = ReservationStatus::Pending.to_i32();
        }
    }
}

impl ToSql for ReservationFilter {
    /// Fails only when the status code names no status.
    fn to_sql(&self) -> (r: Result<String, Error>)
        ensures
            r is Err <==> status_of_code(self.status as int) is None,
            r matches Err(e) ==> e@ == ErrorView::InvalidStatus(self.status),
            r matches Ok(s) ==> s@ == filter_sql(self@, status_of_code(self.status as int)->0),
    {
        let status = match ReservationStatus::from_i32(self.status) {
            Some(s) => s,
            None => return Err(Error::InvalidStatus(self.status)),
        };
        let extra: i128 = if self.cursor.is_none() {
            0
        } else {
            1
        };
        let mut sql: Vec<char> = Vec::new();
        push_str(&mut sql, "SELECT * FROM rsvp.reservation WHERE status='");
        push_str(&mut sql, status.as_str());
        push_str(&mut sql, "'::rsvp.reservation_status");
        if self.desc {
            push_str(&mut sql, " AND id <= ");
        } else {
            push_str(&mut sql, " AND id >= ");
        }
        push_decimal(&mut sql, self.get_cursor() as i128);
        if self.user_id.as_str().is_empty() && self.resource_id.as_str().is_empty() {
            push_str(&mut sql, " AND TRUE");
        } else if self.user_id.as_str().is_empty() {
            push_str(&mut sql, " AND resource_id = '");
            push_str(&mut sql, self.resource_id.as_str());
            push_str(&mut sql, "'");
        } else if self.resource_id.as_str().is_empty() {
            push_str(&mut sql, " AND user_id = '");
            push_str(&mut sql, self.user_id.as_str());
            push_str(&mut sql, "'");
        } else {
            push_str(&mut sql, " AND user_id = '");
            push_str(&mut sql, self.user_id.as_str());
            push_str(&mut sql, "' AND resource_id = '");
            push_str(&mut sql, self.resource_id.as_str());
            push_str(&mut sql, "'");
        }
        push_str(&mut sql, " ORDER BY id ");
        if self.desc {
            push_str(&mut sql, "DESC");
        } else {
            push_str(&mut sql, "ASC");
        }
        push_str(&mut sql, " LIMIT ");
        push_decimal(&mut sql, self.page_size as i128 + 1 + extra);
        assert(sql@ =~= filter_sql(self@, status));
        Ok(string_of_chars(&sql))
    }
}

/// Collects the fields of a filter; unset fields keep their defaults.
#[derive(Debug, Clone)]
pub struct ReservationFilterBuilder {
    pub resource_id: String,
    pub user_id: String,
    pub status: i32,
    pub cursor: Option<i64>,
    pub page_size: i64,
    pub desc: bool,
}

impl View for ReservationFilterBuilder {
    type V = FilterView;

    open spec fn view(&self) -> FilterView {
        FilterView {
            resource_id: self.resource_id@,
            user_id: self.user_id@,
            status: self.status,
            cursor: self.cursor,
            page_size: self.page_size,
            desc: self.desc,
        }
    }
}

impl Default for ReservationFilterBuilder {
    /// No identity, unset status, no cursor, ascending pages of the smallest size.
    fn default() -> (r: ReservationFilterBuilder)
        ensures
            r@ == (FilterView {
                resource_id: Seq::empty(),
                user_id: Seq::empty(),
                status: 0,
                cursor: None,
                page_size: MIN_PAGE_SIZE,
                desc: false,
            }),
    {
        ReservationFilterBuilder {
            resource_id: String::new(),
            user_id: String::new(),
            status: 0,
            cursor: None,
            page_size: MIN_PAGE_SIZE,
            desc: false,
        }
    }
}

impl ReservationFilterBuilder {
    pub fn resource_id(self, value: &str) -> (r: ReservationFilterBuilder)
        ensures
            r@ == (FilterView { resource_id: value@, ..self@ }),
    {
        ReservationFilterBuilder { resource_id: value.to_owned(), ..self }
    }

    pub fn user_id(self, value: &str) -> (r: ReservationFilterBuilder)
        ensures
            r@ == (FilterView { user_id: value@, ..self@ }),
    {
        ReservationFilterBuilder { user_id: value.to_owned(), ..self }
    }

    pub fn status(self, value: i32) -> (r: ReservationFilterBuilder)
        ensures
            r@ == (FilterView { status: value, ..self@ }),
    {
        ReservationFilterBuilder { status: value, ..self }
    }

    pub fn cursor(self, value: i64) -> (r: ReservationFilterBuilder)
        ensures
            r@ == (FilterView { cursor: Some(value), ..self@ }),
    {
        ReservationFilterBuilder { cursor: Some(value), ..self }
    }

    pub fn page_size(self, value: i64) -> (r: ReservationFilterBuilder)
        ensures
            r@ == (FilterView { page_size: value, ..self@ }),
    {
        ReservationFilterBuilder { page_size: value, ..self }
    }

    pub fn desc(self, value: bool) -> (r: ReservationFilterBuilder)
        ensures
            r@ == (FilterView { desc: value, ..self@ }),
    {
        ReservationFilterBuilder { desc: value, ..self }
    }

    /// The validated, normalized filter.
    pub fn build(&self) -> (r: Result<ReservationFilter, Error>)
        ensures
            match r {
                Ok(f) => filter_validation(self@) is Ok && f@ == normalized(self@),
                Err(e) => filter_validation(self@) == Err::<(), ErrorView>(e@),
            },
    {
        let mut filter = ReservationFilter {
            resource_id: self.resource_id.clone(),
            user_id: self.user_id.clone(),
            status: self.status,
            cursor: self.cursor,
            page_size: self.page_size,
            desc: self.desc,
        };
        filter.normalize()?;
        Ok(filter)
    }
}

impl From<Pager> for FilterPager {
    fn from(value: Pager) -> (r: FilterPager) {
        FilterPager { prev: value.prev, next: value.next, total: value.total }
    }
}

impl vstd::std_specs::convert::FromSpecImpl<Pager> for FilterPager {
    open spec fn obeys_from_spec() -> bool {
        true
    }

    open spec fn from_spec(value: Pager) -> FilterPager {
        FilterPager { prev: value.prev, next: value.next, total: value.total }
    }
}

impl From<&FilterPager> for Pager {
    fn from(pager: &FilterPager) -> (r: Pager) {
        Pager { prev: pager.prev, next: pager.next, total: pager.total }
    }
}

impl vstd::std_specs::convert::FromSpecImpl<&FilterPager> for Pager {
    open spec fn obeys_from_spec() -> bool {
        true
    }

    open spec fn from_spec(pager: &FilterPager) -> Pager {
        Pager { prev: pager.prev, next: pager.next, total: pager.total }
    }
}

} // verus!
