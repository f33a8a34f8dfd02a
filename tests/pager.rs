use std::collections::VecDeque;

use reservation::{Id, PageInfo, Paginator};

struct TestId(i64);

impl Id for TestId {
    fn spec_id(&self) -> i64 {
        self.0
    }

    fn id(&self) -> i64 {
        self.0
    }
}

fn generate_test_ids(start: i64, end: i64) -> VecDeque<TestId> {
    (start..=end).map(TestId).collect()
}

#[test]
fn paginator_should_work() {
    let page = PageInfo {
        cursor: None,
        page_size: 10,
        desc: false,
    };

    let mut items = generate_test_ids(1, 11);
    let pager = page.get_pager(&mut items);
    assert!(pager.prev.is_none());
    assert_eq!(pager.next, Some(10));

    let prev = page.prev_page(&pager);
    assert!(prev.is_none());

    // second page
    let page = page.next_page(&pager).unwrap();
    println!("{page:?}");
    let pager = page.get_pager(&mut generate_test_ids(10, 21));
    assert_eq!(pager.prev, Some(11));
    assert_eq!(pager.next, Some(20));

    // third page
    let page = page.next_page(&pager).unwrap();
    let pager = page.get_pager(&mut generate_test_ids(20, 25));
    assert!(pager.next.is_none());
    assert_eq!(pager.prev, Some(21));

    {
        let prev_page = page.prev_page(&pager);
        assert_eq!(prev_page.unwrap().cursor, Some(21));
    }
}

#[test]
fn empty_batch_has_no_neighbours() {
    let page = PageInfo {
        cursor: Some(5),
        page_size: 10,
        desc: false,
    };
    let mut items: VecDeque<TestId> = VecDeque::new();
    let pager = page.get_pager(&mut items);
    assert_eq!(pager.prev, None);
    assert_eq!(pager.next, None);
    assert_eq!(pager.total, None);
    assert!(page.next_page(&pager).is_none());
    assert!(page.prev_page(&pager).is_none());
}

#[test]
fn cursor_row_and_look_ahead_row_are_trimmed() {
    let page = PageInfo {
        cursor: Some(10),
        page_size: 10,
        desc: false,
    };
    let mut items = generate_test_ids(10, 21);
    let pager = page.get_pager(&mut items);
    let ids: Vec<i64> = items.iter().map(|i| i.0).collect();
    assert_eq!(ids, (11..=20).collect::<Vec<i64>>());
    assert_eq!(pager.prev, Some(11));
    assert_eq!(pager.next, Some(20));
}

#[test]
fn short_batch_keeps_all_rows() {
    let page = PageInfo {
        cursor: None,
        page_size: 10,
        desc: true,
    };
    let mut items = generate_test_ids(1, 10);
    let pager = page.get_pager(&mut items);
    assert_eq!(items.len(), 10);
    assert_eq!(pager.next, None);
    assert_eq!(pager.prev, None);
    let next = page.next_page(&reservation::Pager {
        prev: None,
        next: Some(3),
        total: None,
    });
    assert_eq!(
        next,
        Some(PageInfo {
            cursor: Some(3),
            page_size: 10,
            desc: true
        })
    );
}
