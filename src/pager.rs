use vstd::prelude::*;

use std::collections::VecDeque;

verus! {

/// Where a page starts and how large it is.
#[derive(Debug, Clone, Copy, PartialEq, Eq, Structural)]
pub struct PageInfo {
    pub cursor: Option<i64>,
    pub page_size: i64,
    pub desc: bool,
}

/// Cursors of the neighbouring pages.
#[derive(Debug, Clone, Copy, PartialEq, Eq, Structural)]
pub struct Pager {
    pub prev: Option<i64>,
    pub next: Option<i64>,
    pub total: Option<i64>,
}

/// Rows that carry an ordering key.
pub trait Id {
    spec fn spec_id(&self) -> i64;

    fn id(&self) -> (r: i64)
        ensures
            r == self.spec_id(),
    ;
}

/// Keyset pagination over a batch of rows.
pub trait Paginator: Sized {
    fn get_pager<T: Id>(&self, data: &mut VecDeque<T>) -> Pager;

    fn prev_page(&self, pager: &Pager) -> Option<Self>;

    fn next_page(&self, pager: &Pager) -> Option<Self>;
}

/// The batch once the row at the cursor, which belongs to the previous page, is dropped.
pub open spec fn without_cursor_row<T>(cursor_given: bool, data: Seq<T>) -> Seq<T> {
    if cursor_given && data.len() > 0 {
        data.drop_first()
    } else {
        data
    }
}

/// The rows of the page: the batch without the cursor row and without the
/// look-ahead row that only shows that a next page exists.
pub open spec fn page_rows<T>(cursor_given: bool, page_size: int, data: Seq<T>) -> Seq<T> {
    let d = without_cursor_row(cursor_given, data);
    if d.len() > page_size && d.len() > 0 {
        d.drop_last()
    } else {
        d
    }
}

/// The keys of a batch of rows, in order.
pub open spec fn ids_of<T: Id>(data: Seq<T>) -> Seq<i64> {
    data.map_values(|x: T| x.spec_id())
}

/// Cursor of the previous page: the first row kept, when a cursor was given.
pub open spec fn prev_cursor(cursor_given: bool, ids: Seq<i64>) -> Option<i64> {
    let d = without_cursor_row(cursor_given, ids);
    if cursor_given && d.len() > 0 {
        Some(d[0])
    } else {
        None
    }
}

/// Cursor of the next page: the last row kept, when a look-ahead row was present.
pub open spec fn next_cursor(cursor_given: bool, page_size: int, ids: Seq<i64>) -> Option<i64> {
    let d = without_cursor_row(cursor_given, ids);
    if d.len() > page_size && d.len() > 1 {
        Some(d[d.len() - 2])
    } else {
        None
    }
}

/// The page request that continues from `cursor` with the same size and direction.
pub open spec fn page_at(info: PageInfo, cursor: Option<i64>) -> Option<PageInfo> {
    if cursor is Some {
        Some(PageInfo { cursor, page_size: info.page_size, desc: info.desc })
    } else {
        None
    }
}

impl Paginator for PageInfo {
    fn get_pager<T: Id>(&self, data: &mut VecDeque<T>) -> (r: Pager)
        ensures
            final(data)@ == page_rows(self.cursor is Some, self.page_size as int, old(data)@),
            r.prev == prev_cursor(self.cursor is Some, ids_of(old(data)@)),
            r.next == next_cursor(self.cursor is Some, self.page_size as int, ids_of(old(data)@)),
            r.total is None,
    {
        let ghost ids = ids_of(old(data)@);
        let has_prev = self.cursor.is_some();
        let prev = if has_prev {
            data.pop_front();
            if data.len() > 0 {
                Some(data[0].id())
            } else {
                None
            }
        } else {
            None
        };
        assert(data@ =~= without_cursor_row(has_prev, old(data)@));
        assert(ids_of(data@) =~= without_cursor_row(has_prev, ids));

        let has_next = data.len() as i128 > self.page_size as i128;
        let next = if has_next {
            data.pop_back();
            if data.len() > 0 {
                let last = data.len() - 1;
                Some(data[last].id())
            } else {
                None
            }
        } else {
            None
        };
        assert(data@ =~= page_rows(has_prev, self.page_size as int, old(data)@));
        Pager { prev, next, total: None }
    }

    fn prev_page(&self, pager: &Pager) -> (r: Option<PageInfo>)
        ensures
            r == page_at(*self, pager.prev),
    {
        if pager.prev.is_some() {
            Some(PageInfo { cursor: pager.prev, page_size: self.page_size, desc: self.desc })
        } else {
            None
        }
    }

    fn next_page(&self, pager: &Pager) -> (r: Option<PageInfo>)
        ensures
            r == page_at(*self, pager.next),
    {
        if pager.next.is_some() {
            Some(PageInfo { cursor: pager.next, page_size: self.page_size, desc: self.desc })
        } else {
            None
        }
    }
}

} // verus!
