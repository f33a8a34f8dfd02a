use vstd::prelude::*;

use crate::conflict::{ConflictInfoView, ReservationConflict, ReservationConflictInfo, ReservationWindow, WindowView};
use std::collections::VecDeque;

use crate::error::{Error, ErrorView};
use crate::filter::{cursor_or_default, filter_validation, normalized, row_limit, FilterPager, FilterView, ReservationFilter};
use crate::pager::{ids_of, next_cursor, page_rows, prev_cursor};
use crate::query::{has_window, query_status, query_validation, QueryView, ReservationQuery};
use crate::{Normalizer, Paginator};
use crate::reservation::{initial_status, reservation_validation, stored_status, Reservation, ReservationView};
use crate::status::{status_code, ReservationStatus};
use crate::time::{overlap, window_valid, windows_overlap};
use crate::Validator;

verus! {

/// Owns the stored reservations and every change made to them.
///
/// Stored rows are valid, ordered by strictly increasing id, and no two
/// pending or confirmed rows of one resource overlap in time. A reservation
/// is admitted by one check-and-insert step, so no two writers can both see
/// a window as free.
pub struct ReservationManager {
    rows: Vec<Reservation>,
    next_id: i64,
}

pub struct StoreView {
    pub rows: Seq<ReservationView>,
    pub next_id: int,
}

pub open spec fn views(rows: Seq<Reservation>) -> Seq<ReservationView> {
    rows.map_values(|r: Reservation| r@)
}

impl View for ReservationManager {
    type V = StoreView;

    closed spec fn view(&self) -> StoreView {
        StoreView { rows: views(self.rows@), next_id: self.next_id as int }
    }
}

/// Pending and confirmed reservations hold their window exclusively.
pub open spec fn is_active(status: i32) -> bool {
    status == status_code(ReservationStatus::Pending) || status == status_code(
        ReservationStatus::Confirmed,
    )
}

/// Two reservations that may not both be stored.
pub open spec fn slots_clash(a: ReservationView, b: ReservationView) -> bool {
    &&& is_active(a.status)
    &&& is_active(b.status)
    &&& a.resource_id == b.resource_id
    &&& windows_overlap(a.start->0, a.end->0, b.start->0, b.end->0)
}

pub open spec fn store_wf(v: StoreView) -> bool {
    &&& 0 < v.next_id <= i64::MAX
    &&& forall|i: int| 0 <= i < v.rows.len() ==> reservation_validation(#[trigger] v.rows[i]) is Ok
    &&& forall|i: int| 0 <= i < v.rows.len() ==> 0 < #[trigger] v.rows[i].id < v.next_id
    &&& forall|i: int, j: int| 0 <= i < j < v.rows.len() ==> v.rows[i].id < v.rows[j].id
    &&& forall|i: int, j: int|
        0 <= i < v.rows.len() && 0 <= j < v.rows.len() && i != j ==> !slots_clash(
            #[trigger] v.rows[i],
            #[trigger] v.rows[j],
        )
}

/// A new reservation as it would be stored under `id`.
pub open spec fn as_stored(r: ReservationView, id: int) -> ReservationView {
    ReservationView { id: id as i64, status: stored_status(), ..r }
}

pub open spec fn window_view(r: ReservationView) -> WindowView {
    WindowView { rid: r.resource_id, start: r.start->0, end: r.end->0 }
}

pub open spec fn is_first_clash(rows: Seq<ReservationView>, r: ReservationView, k: int) -> bool {
    &&& 0 <= k < rows.len()
    &&& slots_clash(rows[k], r)
    &&& forall|j: int| 0 <= j < k ==> !slots_clash(#[trigger] rows[j], r)
}

/// The first stored row that `r` clashes with.
pub open spec fn first_clash(rows: Seq<ReservationView>, r: ReservationView) -> Option<int> {
    if exists|k: int| is_first_clash(rows, r, k) {
        Some(choose|k: int| is_first_clash(rows, r, k))
    } else {
        None
    }
}

/// Where the row with id `id` is stored.
pub open spec fn position_of(rows: Seq<ReservationView>, id: i64) -> Option<int> {
    if exists|k: int| 0 <= k < rows.len() && rows[k].id == id {
        Some(choose|k: int| 0 <= k < rows.len() && rows[k].id == id)
    } else {
        None
    }
}

pub open spec fn ids_exhausted_message() -> Seq<char> {
    "reservation ids are exhausted"@
}

/// `reserve`: validate, then insert unless an active row of the same resource overlaps.
pub open spec fn reserve_spec(v: StoreView, r: ReservationView) -> (StoreView, Result<ReservationView, ErrorView>) {
    match reservation_validation(r) {
        Err(e) => (v, Err(e)),
        Ok(_) => if v.next_id >= i64::MAX {
            (v, Err(ErrorView::DbError(ids_exhausted_message())))
        } else {
            let stored = as_stored(r, v.next_id);
            match first_clash(v.rows, stored) {
                Some(k) => (
                    v,
                    Err(
                        ErrorView::ConflictReservation(
                            ConflictInfoView::Parsed {
                                new: window_view(stored),
                                old: window_view(v.rows[k]),
                            },
                        ),
                    ),
                ),
                None => (StoreView { rows: v.rows.push(stored), next_id: v.next_id + 1 }, Ok(stored)),
            }
        },
    }
}

/// `change_status`: a pending row becomes confirmed; anything else is not found.
pub open spec fn change_status_spec(v: StoreView, id: i64) -> (StoreView, Result<ReservationView, ErrorView>) {
    if id <= 0 {
        (v, Err(ErrorView::InvalidReservationId(id)))
    } else {
        match position_of(v.rows, id) {
            Some(k) => if v.rows[k].status == status_code(ReservationStatus::Pending) {
                let row = ReservationView {
                    status: status_code(ReservationStatus::Confirmed) as i32,
                    ..v.rows[k]
                };
                (StoreView { rows: v.rows.update(k, row), ..v }, Ok(row))
            } else {
                (v, Err(ErrorView::ReservationNotFound))
            },
            None => (v, Err(ErrorView::ReservationNotFound)),
        }
    }
}

/// `update_note`: rewrites the note of the row, whatever its status.
pub open spec fn update_note_spec(v: StoreView, id: i64, note: Seq<char>) -> (StoreView, Result<ReservationView, ErrorView>) {
    if id <= 0 {
        (v, Err(ErrorView::InvalidReservationId(id)))
    } else {
        match position_of(v.rows, id) {
            Some(k) => {
                let row = ReservationView { note, ..v.rows[k] };
                (StoreView { rows: v.rows.update(k, row), ..v }, Ok(row))
            },
            None => (v, Err(ErrorView::ReservationNotFound)),
        }
    }
}

/// `delete`: removes the row and hands it back.
pub open spec fn delete_spec(v: StoreView, id: i64) -> (StoreView, Result<ReservationView, ErrorView>) {
    if id <= 0 {
        (v, Err(ErrorView::InvalidReservationId(id)))
    } else {
        match position_of(v.rows, id) {
            Some(k) => (StoreView { rows: v.rows.remove(k), ..v }, Ok(v.rows[k])),
            None => (v, Err(ErrorView::ReservationNotFound)),
        }
    }
}

/// `get`: the row with the id.
pub open spec fn get_spec(v: StoreView, id: i64) -> Result<ReservationView, ErrorView> {
    if id <= 0 {
        Err(ErrorView::InvalidReservationId(id))
    } else {
        match position_of(v.rows, id) {
            Some(k) => Ok(v.rows[k]),
            None => Err(ErrorView::ReservationNotFound),
        }
    }
}

/// A query keeps rows of its status, of its user and resource when named,
/// and overlapping its window when it has one.
pub open spec fn query_keeps(q: QueryView, r: ReservationView) -> bool {
    &&& r.status == status_code(query_status(q.status))
    &&& (q.user_id.len() == 0 || r.user_id == q.user_id)
    &&& (q.resource_id.len() == 0 || r.resource_id == q.resource_id)
    &&& (has_window(q) ==> windows_overlap(r.start->0, r.end->0, q.start->0, q.end->0))
}

/// Rows by ascending id, or by descending id.
pub open spec fn in_order(rows: Seq<ReservationView>, desc: bool) -> Seq<ReservationView> {
    if desc {
        rows.reverse()
    } else {
        rows
    }
}

/// `query`: the matching rows ordered by id in the requested direction.
pub open spec fn query_spec(v: StoreView, q: QueryView) -> Result<Seq<ReservationView>, ErrorView> {
    match query_validation(q) {
        Err(e) => Err(e),
        Ok(_) => Ok(in_order(v.rows.filter(|r: ReservationView| query_keeps(q, r)), q.desc)),
    }
}

/// A filter keeps rows of its status on its side of the cursor, of its user
/// and resource when named.
pub open spec fn filter_keeps(f: FilterView, r: ReservationView) -> bool {
    &&& r.status == f.status
    &&& if f.desc {
        r.id <= cursor_or_default(f)
    } else {
        r.id >= cursor_or_default(f)
    }
    &&& (f.user_id.len() == 0 || r.user_id == f.user_id)
    &&& (f.resource_id.len() == 0 || r.resource_id == f.resource_id)
}

/// At most the first `n` elements.
pub open spec fn at_most<A>(s: Seq<A>, n: int) -> Seq<A> {
    if s.len() <= n {
        s
    } else {
        s.take(n)
    }
}

pub open spec fn row_ids(rows: Seq<ReservationView>) -> Seq<i64> {
    rows.map_values(|r: ReservationView| r.id)
}

/// The rows a normalized filter fetches: the matches in order, up to its row limit.
pub open spec fn filter_batch(v: StoreView, f: FilterView) -> Seq<ReservationView> {
    at_most(in_order(v.rows.filter(|r: ReservationView| filter_keeps(f, r)), f.desc), row_limit(f))
}

/// `filter`: validate and normalize, fetch the batch, then trim it to the
/// page and derive the neighbouring cursors.
pub open spec fn filter_spec(v: StoreView, f: FilterView) -> Result<(FilterPager, Seq<ReservationView>), ErrorView> {
    match filter_validation(f) {
        Err(e) => Err(e),
        Ok(_) => {
            let g = normalized(f);
            let b = filter_batch(v, g);
            let given = g.cursor is Some;
            Ok(
                (
                    FilterPager {
                        prev: prev_cursor(given, row_ids(b)),
                        next: next_cursor(given, g.page_size as int, row_ids(b)),
                        total: None,
                    },
                    page_rows(given, g.page_size as int, b),
                ),
            )
        },
    }
}

pub open spec fn outcome(r: Result<Reservation, Error>) -> Result<ReservationView, ErrorView> {
    match r {
        Ok(x) => Ok(x@),
        Err(e) => Err(e@),
    }
}

pub open spec fn ids_increasing(rows: Seq<ReservationView>) -> bool {
    forall|i: int, j: int| 0 <= i < j < rows.len() ==> rows[i].id < rows[j].id
}

proof fn lemma_position_unique(rows: Seq<ReservationView>, id: i64, k: int)
    requires
        ids_increasing(rows),
        0 <= k < rows.len(),
        rows[k].id == id,
    ensures
        position_of(rows, id) == Some(k),
{
    let c = choose|c: int| 0 <= c < rows.len() && rows[c].id == id;
    if c < k {
        assert(rows[c].id < rows[k].id);
    } else if c > k {
        assert(rows[k].id < rows[c].id);
    }
}

/// A reservation whose window is missing or empty is refused with
/// `InvalidTime` and leaves the store untouched, once its user and resource
/// are named.
pub proof fn lemma_bad_window_is_refused(v: StoreView, r: ReservationView)
    requires
        r.user_id.len() > 0,
        r.resource_id.len() > 0,
        !window_valid(r.start, r.end),
    ensures
        reserve_spec(v, r) == (v, Err::<ReservationView, ErrorView>(ErrorView::InvalidTime)),
{
}

/// Of two valid reservations of one resource whose windows overlap, the
/// first is stored and the second is refused with a decoded conflict whose
/// stored window belongs to that resource, whatever status either was sent with.
pub proof fn lemma_overlap_is_refused(v: StoreView, r1: ReservationView, r2: ReservationView)
    requires
        store_wf(v),
        v.next_id + 1 < i64::MAX,
        reservation_validation(r1) is Ok,
        reservation_validation(r2) is Ok,
        r1.resource_id == r2.resource_id,
        windows_overlap(r1.start->0, r1.end->0, r2.start->0, r2.end->0),
        forall|k: int| 0 <= k < v.rows.len() ==> !slots_clash(#[trigger] v.rows[k], as_stored(r1, v.next_id)),
    ensures
        reserve_spec(v, r1).1 == Ok::<ReservationView, ErrorView>(as_stored(r1, v.next_id)),
        reserve_spec(reserve_spec(v, r1).0, r2).1 matches Err(
            ErrorView::ConflictReservation(ConflictInfoView::Parsed { new, old }),
        ) && new.rid == r2.resource_id && old.rid == r1.resource_id,
{
    let s1 = as_stored(r1, v.next_id);
    assert(!exists|k: int| is_first_clash(v.rows, s1, k));
    let w = reserve_spec(v, r1).0;
    assert(w.rows == v.rows.push(s1));
    let s2 = as_stored(r2, w.next_id);
    assert(slots_clash(w.rows[v.rows.len() as int], s2));
    lemma_some_clash_has_first(w.rows, s2, v.rows.len() as int);
    let k = first_clash(w.rows, s2)->0;
    assert(is_first_clash(w.rows, s2, k));
}

/// A stored reservation is pending, keeps the caller's user, resource,
/// window and note, and gets a fresh positive id.
pub proof fn lemma_reserved_is_pending(v: StoreView, r: ReservationView)
    requires
        store_wf(v),
        reserve_spec(v, r).1 is Ok,
    ensures
        reserve_spec(v, r).1 == Ok::<ReservationView, ErrorView>(
            ReservationView {
                id: v.next_id as i64,
                status: status_code(ReservationStatus::Pending) as i32,
                ..r
            },
        ),
        v.next_id > 0,
        forall|k: int| 0 <= k < v.rows.len() ==> v.rows[k].id != v.next_id,
{
}

proof fn lemma_some_clash_has_first(rows: Seq<ReservationView>, r: ReservationView, k: int)
    requires
        0 <= k < rows.len(),
        slots_clash(rows[k], r),
    ensures
        first_clash(rows, r) is Some,
    decreases k,
{
    if forall|j: int| 0 <= j < k ==> !slots_clash(#[trigger] rows[j], r) {
        assert(is_first_clash(rows, r, k));
    } else {
        let j = choose|j: int| 0 <= j < k && slots_clash(#[trigger] rows[j], r);
        lemma_some_clash_has_first(rows, r, j);
    }
}

/// Confirmation is one-way: a pending reservation is confirmed once, and
/// confirming it again reports that no pending reservation has the id.
pub proof fn lemma_confirm_is_one_shot(v: StoreView, id: i64)
    requires
        store_wf(v),
        id > 0,
        position_of(v.rows, id) matches Some(k) && v.rows[k].status == status_code(
            ReservationStatus::Pending,
        ),
    ensures
        change_status_spec(v, id).1 is Ok,
        change_status_spec(change_status_spec(v, id).0, id).1 == Err::<ReservationView, ErrorView>(
            ErrorView::ReservationNotFound,
        ),
{
    let k = position_of(v.rows, id)->0;
    let w = change_status_spec(v, id).0;
    assert(0 <= k < v.rows.len() && v.rows[k].id == id);
    assert(ids_increasing(w.rows)) by {
        assert forall|i: int, j: int| 0 <= i < j < w.rows.len() implies w.rows[i].id < w.rows[j].id by {
            assert(v.rows[i].id < v.rows[j].id);
        }
    }
    lemma_position_unique(w.rows, id, k);
}

/// After a reservation is cancelled, fetching its id reports that it is not found.
pub proof fn lemma_cancelled_is_gone(v: StoreView, id: i64)
    requires
        store_wf(v),
        id > 0,
    ensures
        get_spec(delete_spec(v, id).0, id) == Err::<ReservationView, ErrorView>(
            ErrorView::ReservationNotFound,
        ),
{
    let w = delete_spec(v, id).0;
    if let Some(k) = position_of(v.rows, id) {
        assert(0 <= k < v.rows.len() && v.rows[k].id == id);
        assert forall|j: int| 0 <= j < w.rows.len() implies w.rows[j].id != id by {
            let j0 = if j < k { j } else { j + 1 };
            assert(w.rows[j] == v.rows[j0]);
            if j0 < k {
                assert(v.rows[j0].id < v.rows[k].id);
            } else {
                assert(v.rows[k].id < v.rows[j0].id);
            }
        }
    }
}

fn window_of_row(r: &Reservation) -> (w: ReservationWindow)
    requires
        reservation_validation(r@) is Ok,
    ensures
        w@ == window_view(r@),
{
    let start = match r.start {
        Some(s) => s,
        None => r.end.unwrap(),
    };
    let end = match r.end {
        Some(e) => e,
        None => start,
    };
    ReservationWindow { rid: r.resource_id.clone(), start, end }
}

/// The rows of `v`, last first.
fn reversed(v: Vec<Reservation>) -> (r: Vec<Reservation>)
    ensures
        views(r@) == views(v@).reverse(),
{
    let n = v.len();
    let mut out: Vec<Reservation> = Vec::new();
    let mut i: usize = n;
    while i > 0
        invariant
            n == v@.len(),
            i <= n,
            out@.len() == n - i,
            forall|j: int| 0 <= j < out@.len() ==> out@[j]@ == v@[n - 1 - j]@,
        decreases i,
    {
        i = i - 1;
        out.push(v[i].duplicate());
    }
    assert(views(out@) =~= views(v@).reverse());
    out
}

fn query_matches(r: &Reservation, q: &ReservationQuery, status: i32) -> (b: bool)
    requires
        reservation_validation(r@) is Ok,
        query_validation(q@) is Ok,
        status == status_code(query_status(q.status)),
    ensures
        b == query_keeps(q@, r@),
{
    if r.status != status {
        return false;
    }
    if !q.user_id.as_str().is_empty() && !r.user_id.eq(&q.user_id) {
        return false;
    }
    if !q.resource_id.as_str().is_empty() && !r.resource_id.eq(&q.resource_id) {
        return false;
    }
    match (q.start, q.end) {
        (Some(qs), Some(qe)) => match (r.start, r.end) {
            (Some(s), Some(e)) => overlap(&s, &e, &qs, &qe),
            _ => false,
        },
        _ => true,
    }
}

fn filter_matches(r: &Reservation, f: &ReservationFilter) -> (b: bool)
    ensures
        b == filter_keeps(f@, r@),
{
    if r.status != f.status {
        return false;
    }
    let cursor = f.get_cursor();
    if f.desc {
        if r.id > cursor {
            return false;
        }
    } else if r.id < cursor {
        return false;
    }
    if !f.user_id.as_str().is_empty() && !r.user_id.eq(&f.user_id) {
        return false;
    }
    if !f.resource_id.as_str().is_empty() && !r.resource_id.eq(&f.resource_id) {
        return false;
    }
    true
}

fn is_active_code(status: i32) -> (r: bool)
    ensures
        r == is_active(status),
{
    status == ReservationStatus::Pending.to_i32() || status == ReservationStatus::Confirmed.to_i32()
}

fn clashes(a: &Reservation, b: &Reservation) -> (r: bool)
    requires
        reservation_validation(a@) is Ok,
        reservation_validation(b@) is Ok,
    ensures
        r == slots_clash(a@, b@),
{
    if !(is_active_code(a.status) && is_active_code(b.status)) {
        return false;
    }
    if !a.resource_id.eq(&b.resource_id) {
        return false;
    }
    match (a.start, a.end, b.start, b.end) {
        (Some(s1), Some(e1), Some(s2), Some(e2)) => overlap(&s1, &e1, &s2, &e2),
        _ => false,
    }
}

impl ReservationManager {
    /// An empty store.
    pub fn new() -> (r: ReservationManager)
        ensures
            r.wf(),
            r@.rows.len() == 0,
            r@.next_id == 1,
    {
        let r = ReservationManager { rows: Vec::new(), next_id: 1 };
        assert(r@.rows =~= Seq::<ReservationView>::empty());
        r
    }

    pub closed spec fn wf(&self) -> bool {
        store_wf(self@)
    }

    /// A well-formed manager's store satisfies the store invariant, which
    /// the lifecycle laws take as their precondition.
    pub proof fn lemma_wf(&self)
        requires
            self.wf(),
        ensures
            store_wf(self@),
    {
    }

    /// Where the row with id `id` is stored.
    fn find(&self, id: i64) -> (r: Option<usize>)
        requires
            self.wf(),
        ensures
            match r {
                Some(k) => position_of(self@.rows, id) == Some(k as int) && k < self@.rows.len(),
                None => position_of(self@.rows, id) is None,
            },
    {
        let ghost rows = self@.rows;
        let mut i: usize = 0;
        while i < self.rows.len()
            invariant
                self.wf(),
                rows == self@.rows,
                i <= rows.len(),
                rows.len() == self.rows@.len(),
                forall|j: int| 0 <= j < i ==> rows[j].id != id,
            decreases rows.len() - i,
        {
            assert(rows[i as int] == self.rows@[i as int]@);
            if self.rows[i].id == id {
                proof {
                    lemma_position_unique(self@.rows, id, i as int);
                }
                return Some(i);
            }
            i = i + 1;
        }
        None
    }

    /// Stores a new reservation, or reports why it cannot be stored.
    pub fn reserve(&mut self, rsvp: Reservation) -> (r: Result<Reservation, Error>)
        requires
            old(self).wf(),
        ensures
            final(self).wf(),
            (final(self)@, outcome(r)) == reserve_spec(old(self)@, rsvp@),
    {
        if let Err(e) = rsvp.validate() {
            return Err(e);
        }
        if self.next_id == i64::MAX {
            return Err(Error::DbError("reservation ids are exhausted".to_owned()));
        }
        let status = initial_status().to_i32();
        let ghost input = rsvp@;
        let mut stored = rsvp;
        stored.id = self.next_id;
        stored.status = status;
        assert(stored@ == as_stored(rsvp@, self@.next_id));
        let ghost rows = self@.rows;
        let mut i: usize = 0;
        while i < self.rows.len()
            invariant
                self.wf(),
                rows == self@.rows,
                rows.len() == self.rows@.len(),
                i <= rows.len(),
                reservation_validation(stored@) is Ok,
                reservation_validation(input) is Ok,
                input == rsvp@,
                self@ == old(self)@,
                self@.next_id < i64::MAX,
                stored@ == as_stored(input, self@.next_id),
                forall|j: int| 0 <= j < i ==> !slots_clash(#[trigger] rows[j], stored@),
            decreases rows.len() - i,
        {
            assert(rows[i as int] == self.rows@[i as int]@);
            if clashes(&self.rows[i], &stored) {
                assert(is_first_clash(rows, stored@, i as int));
                let ghost c = choose|c: int| is_first_clash(rows, stored@, c);
                assert(c == i as int) by {
                    if c < i as int {
                        assert(!slots_clash(rows[c], stored@));
                    } else if c > i as int {
                        assert(!slots_clash(rows[i as int], stored@));
                    }
                }
                let new_window = window_of_row(&stored);
                let old_window = window_of_row(&self.rows[i]);
                let info = ReservationConflictInfo::Parsed(
                    ReservationConflict { new: new_window, old: old_window },
                );
                return Err(Error::ConflictReservation(info));
            }
            i = i + 1;
        }
        assert(!exists|c: int| is_first_clash(rows, stored@, c));
        let result = stored.duplicate();
        self.next_id = self.next_id + 1;
        self.rows.push(stored);
        assert(self@.rows =~= rows.push(result@));
        proof {
            let v = self@;
            assert forall|a: int, b: int|
                0 <= a < v.rows.len() && 0 <= b < v.rows.len() && a != b implies !slots_clash(
                #[trigger] v.rows[a],
                #[trigger] v.rows[b],
            ) by {
                if a == rows.len() {
                    assert(!slots_clash(rows[b], result@));
                } else if b == rows.len() {
                    assert(!slots_clash(rows[a], result@));
                } else {
                    assert(v.rows[a] == rows[a] && v.rows[b] == rows[b]);
                }
            }
        }
        Ok(result)
    }

    /// Confirms a pending reservation.
    pub fn change_status(&mut self, id: i64) -> (r: Result<Reservation, Error>)
        requires
            old(self).wf(),
        ensures
            final(self).wf(),
            (final(self)@, outcome(r)) == change_status_spec(old(self)@, id),
    {
        id.validate()?;
        let k = match self.find(id) {
            Some(k) => k,
            None => return Err(Error::ReservationNotFound),
        };
        if self.rows[k].status != ReservationStatus::Pending.to_i32() {
            return Err(Error::ReservationNotFound);
        }
        let ghost rows = self@.rows;
        let mut row = self.rows[k].duplicate();
        row.status = ReservationStatus::Confirmed.to_i32();
        let result = row.duplicate();
        self.rows.set(k, row);
        assert(self@.rows =~= rows.update(k as int, result@));
        proof {
            let v = self@;
            assert forall|a: int, b: int|
                0 <= a < v.rows.len() && 0 <= b < v.rows.len() && a != b implies !slots_clash(
                #[trigger] v.rows[a],
                #[trigger] v.rows[b],
            ) by {
                assert(!slots_clash(rows[a], rows[b]));
            }
        }
        Ok(result)
    }

    /// Rewrites the note of a reservation.
    pub fn update_note(&mut self, id: i64, note: String) -> (r: Result<Reservation, Error>)
        requires
            old(self).wf(),
        ensures
            final(self).wf(),
            (final(self)@, outcome(r)) == update_note_spec(old(self)@, id, note@),
    {
        id.validate()?;
        let k = match self.find(id) {
            Some(k) => k,
            None => return Err(Error::ReservationNotFound),
        };
        let ghost rows = self@.rows;
        let mut row = self.rows[k].duplicate();
        row.note = note;
        let result = row.duplicate();
        self.rows.set(k, row);
        assert(self@.rows =~= rows.update(k as int, result@));
        proof {
            let v = self@;
            assert forall|a: int, b: int|
                0 <= a < v.rows.len() && 0 <= b < v.rows.len() && a != b implies !slots_clash(
                #[trigger] v.rows[a],
                #[trigger] v.rows[b],
            ) by {
                assert(!slots_clash(rows[a], rows[b]));
            }
        }
        Ok(result)
    }

    /// Removes a reservation and returns it.
    pub fn delete(&mut self, id: i64) -> (r: Result<Reservation, Error>)
        requires
            old(self).wf(),
        ensures
            final(self).wf(),
            (final(self)@, outcome(r)) == delete_spec(old(self)@, id),
    {
        id.validate()?;
        let k = match self.find(id) {
            Some(k) => k,
            None => return Err(Error::ReservationNotFound),
        };
        let ghost rows = self@.rows;
        let removed = self.rows.remove(k);
        assert(self@.rows =~= rows.remove(k as int));
        proof {
            let v = self@;
            assert forall|a: int, b: int|
                0 <= a < v.rows.len() && 0 <= b < v.rows.len() && a != b implies !slots_clash(
                #[trigger] v.rows[a],
                #[trigger] v.rows[b],
            ) by {
                let a0 = if a < k { a } else { a + 1 };
                let b0 = if b < k { b } else { b + 1 };
                assert(v.rows[a] == rows[a0] && v.rows[b] == rows[b0]);
                assert(!slots_clash(rows[a0], rows[b0]));
            }
            assert forall|a: int, b: int| 0 <= a < b < v.rows.len() implies v.rows[a].id < v.rows[b].id by {
                let a0 = if a < k { a } else { a + 1 };
                let b0 = if b < k { b } else { b + 1 };
                assert(v.rows[a] == rows[a0] && v.rows[b] == rows[b0]);
            }
        }
        Ok(removed)
    }

    /// The reservations that match a query, ordered by id in the requested direction.
    pub fn query(&self, query: &ReservationQuery) -> (r: Result<Vec<Reservation>, Error>)
        requires
            self.wf(),
        ensures
            match r {
                Ok(rows) => query_spec(self@, query@) == Ok::<Seq<ReservationView>, ErrorView>(
                    views(rows@),
                ),
                Err(e) => query_spec(self@, query@) == Err::<Seq<ReservationView>, ErrorView>(e@),
            },
    {
        query.check()?;
        let status = query.effective_status().to_i32();
        let ghost rows = self@.rows;
        let ghost keep = |x: ReservationView| query_keeps(query@, x);
        let mut out: Vec<Reservation> = Vec::new();
        let mut i: usize = 0;
        proof {
            reveal(Seq::filter);
        }
        assert(views(out@) =~= rows.subrange(0, 0).filter(keep));
        while i < self.rows.len()
            invariant
                self.wf(),
                rows == self@.rows,
                rows.len() == self.rows@.len(),
                i <= rows.len(),
                query_validation(query@) is Ok,
                status == status_code(query_status(query.status)),
                keep == (|x: ReservationView| query_keeps(query@, x)),
                views(out@) == rows.subrange(0, i as int).filter(keep),
            decreases rows.len() - i,
        {
            assert(rows[i as int] == self.rows@[i as int]@);
            if query_matches(&self.rows[i], query, status) {
                out.push(self.rows[i].duplicate());
            }
            let ghost p = rows.subrange(0, i as int + 1);
            assert(p.drop_last() =~= rows.subrange(0, i as int));
            i = i + 1;
            proof {
                reveal(Seq::filter);
            }
            assert(views(out@) =~= p.filter(keep));
        }
        assert(rows.subrange(0, rows.len() as int) =~= rows);
        if query.desc {
            Ok(reversed(out))
        } else {
            Ok(out)
        }
    }

    /// One page of the reservations that match a filter, with the cursors of
    /// the neighbouring pages.
    pub fn filter(&self, filter: ReservationFilter) -> (r: Result<(FilterPager, Vec<Reservation>), Error>)
        requires
            self.wf(),
        ensures
            match r {
                Ok((pager, rows)) => filter_spec(self@, filter@) == Ok::<
                    (FilterPager, Seq<ReservationView>),
                    ErrorView,
                >((pager, views(rows@))),
                Err(e) => filter_spec(self@, filter@) == Err::<
                    (FilterPager, Seq<ReservationView>),
                    ErrorView,
                >(e@),
            },
    {
        let ghost original = filter@;
        let mut filter = filter;
        filter.normalize()?;
        let ghost g = filter@;
        assert(g == normalized(original));
        let ghost rows = self@.rows;
        let ghost keep = |x: ReservationView| filter_keeps(g, x);
        let mut selected: Vec<Reservation> = Vec::new();
        let mut i: usize = 0;
        proof {
            reveal(Seq::filter);
        }
        assert(views(selected@) =~= rows.subrange(0, 0).filter(keep));
        while i < self.rows.len()
            invariant
                self.wf(),
                rows == self@.rows,
                rows.len() == self.rows@.len(),
                i <= rows.len(),
                g == filter@,
                keep == (|x: ReservationView| filter_keeps(g, x)),
                views(selected@) == rows.subrange(0, i as int).filter(keep),
            decreases rows.len() - i,
        {
            assert(rows[i as int] == self.rows@[i as int]@);
            if filter_matches(&self.rows[i], &filter) {
                selected.push(self.rows[i].duplicate());
            }
            let ghost p = rows.subrange(0, i as int + 1);
            assert(p.drop_last() =~= rows.subrange(0, i as int));
            i = i + 1;
            proof {
                reveal(Seq::filter);
            }
            assert(views(selected@) =~= p.filter(keep));
        }
        assert(rows.subrange(0, rows.len() as int) =~= rows);
        let ordered = if filter.desc {
            reversed(selected)
        } else {
            selected
        };
        let ghost all = views(ordered@);
        assert(all == in_order(rows.filter(keep), g.desc));
        let limit: i128 = filter.page_size as i128 + 1 + if filter.cursor.is_some() {
            1i128
        } else {
            0i128
        };
        let mut batch: VecDeque<Reservation> = VecDeque::new();
        let mut j: usize = 0;
        while j < ordered.len() && (j as i128) < limit
            invariant
                j <= ordered@.len(),
                j <= limit,
                all == views(ordered@),
                views(batch@) == all.subrange(0, j as int),
            decreases ordered@.len() - j,
        {
            let ghost before = views(batch@);
            let x = ordered[j].duplicate();
            assert(x@ == all[j as int]);
            batch.push_back(x);
            assert(views(batch@) =~= before.push(x@));
            j = j + 1;
            assert(views(batch@) =~= all.subrange(0, j as int));
        }
        assert(views(batch@) =~= at_most(all, limit as int));
        let ghost b = views(batch@);
        assert(ids_of(batch@) =~= row_ids(b));
        let pager = filter.get_pager(&mut batch);
        assert(views(batch@) =~= page_rows(g.cursor is Some, g.page_size as int, b));
        let mut page: Vec<Reservation> = Vec::new();
        let ghost trimmed = views(batch@);
        let ghost n = batch@.len();
        while batch.len() > 0
            invariant
                n == trimmed.len(),
                batch@.len() <= n,
                views(page@) + views(batch@) == trimmed,
            decreases batch@.len(),
        {
            let ghost before = batch@;
            match batch.pop_front() {
                Some(x) => {
                    assert(views(before) =~= seq![x@] + views(batch@));
                    page.push(x);
                    assert(views(page@) + views(batch@) =~= trimmed);
                },
                None => {},
            }
        }
        assert(views(page@) =~= trimmed);
        Ok((pager, page))
    }

    /// The reservation with the id.
    pub fn get(&self, id: i64) -> (r: Result<Reservation, Error>)
        requires
            self.wf(),
        ensures
            outcome(r) == get_spec(self@, id),
    {
        id.validate()?;
        match self.find(id) {
            Some(k) => Ok(self.rows[k].duplicate()),
            None => Err(Error::ReservationNotFound),
        }
    }
}

} // verus!
