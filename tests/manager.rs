use chrono::{DateTime, FixedOffset};
use reservation::{
    Error, Reservation, ReservationConflictInfo, ReservationFilterBuilder, ReservationManager,
    ReservationQuery, ReservationStatus, Timestamp,
};

fn ts(s: &str) -> Timestamp {
    let dt: DateTime<FixedOffset> = s.parse().unwrap();
    Timestamp::new(dt.timestamp(), dt.timestamp_subsec_nanos() as i32)
}

fn make_reservation(
    manager: &mut ReservationManager,
    uid: &str,
    rid: &str,
    start: &str,
    end: &str,
    note: &str,
) -> Reservation {
    let rsvp = Reservation::new_pending(uid, rid, ts(start), ts(end), note);
    manager.reserve(rsvp).unwrap()
}

fn make_luckychacha_reservation(manager: &mut ReservationManager) -> Reservation {
    make_reservation(
        manager,
        "luckychacha",
        "ocean-view-room-666",
        "2022-12-25T15:00:00+0800",
        "2022-12-28T11:00:00+0800",
        "I need to book this for xyz project for a month",
    )
}

fn make_alice_reservation(manager: &mut ReservationManager) -> Reservation {
    make_reservation(
        manager,
        "alice",
        "ixia-test-1",
        "2022-12-25T15:00:00+0800",
        "2022-12-28T11:00:00+0800",
        "I need to book this for xyz project for a month",
    )
}

fn query_for(user_id: &str, start: &str, end: &str, status: ReservationStatus) -> ReservationQuery {
    ReservationQuery {
        resource_id: String::new(),
        user_id: user_id.to_string(),
        status: status as i32,
        start: Some(ts(start)),
        end: Some(ts(end)),
        page: 0,
        page_size: 10,
        desc: false,
    }
}

#[test]
fn reserve_should_work_for_valid_window() {
    let mut manager = ReservationManager::new();
    let rsvp = make_luckychacha_reservation(&mut manager);
    assert_ne!(rsvp.id, 0);
}

#[test]
fn reserve_conflict_reservation_should_reject() {
    let mut manager = ReservationManager::new();
    let _rsvp1 = make_luckychacha_reservation(&mut manager);

    let rsvp2 = Reservation::new_pending(
        "luckychacha-id",
        "ocean-view-room-666",
        ts("2022-12-25T15:00:00+0800"),
        ts("2022-12-28T11:00:00+0800"),
        "I'll arrive at 3pm. Please help to upgrade to execuitive room if possible.",
    );

    let err = manager.reserve(rsvp2).unwrap_err();
    if let Error::ConflictReservation(ReservationConflictInfo::Parsed(info)) = err {
        assert_eq!(info.old.rid, "ocean-view-room-666");
    } else {
        panic!("expected a decoded conflict");
    }
}

#[test]
fn reservation_change_status_should_work() {
    let mut manager = ReservationManager::new();
    let rsvp = make_alice_reservation(&mut manager);
    println!("rsvp: {rsvp:?}");
    assert!(rsvp.id > 0);

    let rsvp = manager.change_status(rsvp.id).unwrap();

    assert_eq!(rsvp.status, ReservationStatus::Confirmed as i32);
}

#[test]
fn reservation_change_status_twice_should_do_nothing() {
    let mut manager = ReservationManager::new();
    let rsvp = make_alice_reservation(&mut manager);

    assert!(rsvp.id > 0);

    let rsvp = manager.change_status(rsvp.id).unwrap();

    let rsvp = manager.change_status(rsvp.id).unwrap_err();

    assert_eq!(rsvp, Error::ReservationNotFound);
}

#[test]
fn update_note_should_work() {
    let mut manager = ReservationManager::new();
    let rsvp = make_alice_reservation(&mut manager);
    assert!(rsvp.id > 0);

    let rsvp = manager.update_note(rsvp.id, "Hello world".into()).unwrap();

    assert_eq!(rsvp.note, "Hello world");
    assert_eq!(manager.get(rsvp.id).unwrap().note, "Hello world");
}

#[test]
fn get_reservation_should_work() {
    let mut manager = ReservationManager::new();
    let rsvp = make_alice_reservation(&mut manager);
    assert!(rsvp.id > 0);

    let rsvp1 = manager.get(rsvp.id).unwrap();

    assert_eq!(rsvp, rsvp1);
}

#[test]
fn delete_reservation_should_work() {
    let mut manager = ReservationManager::new();
    let rsvp = make_alice_reservation(&mut manager);
    assert!(rsvp.id > 0);

    manager.delete(rsvp.id).unwrap();

    let get_return_err = manager.get(rsvp.id).unwrap_err();

    assert_eq!(get_return_err, Error::ReservationNotFound);
}

#[test]
fn query_reservations_should_work() {
    let mut manager = ReservationManager::new();
    let rsvp = make_alice_reservation(&mut manager);
    assert!(rsvp.id > 0);

    let query = query_for(
        "alice",
        "2022-12-25T15:00:00+0800",
        "2022-12-28T11:00:00+0800",
        ReservationStatus::Pending,
    );
    let rsvps = manager.query(&query).unwrap();
    assert_eq!(rsvps, vec![rsvp.clone()]);

    // if window is not in range, should return empty
    let query = query_for(
        "alice",
        "2022-12-29T15:00:00+0800",
        "2022-12-30T11:00:00+0800",
        ReservationStatus::Pending,
    );
    assert!(manager.query(&query).unwrap().is_empty());

    // if status is not in correct, should return empty
    let query = query_for(
        "alice",
        "2022-12-25T15:00:00+0800",
        "2022-12-28T11:00:00+0800",
        ReservationStatus::Confirmed,
    );
    assert!(manager.query(&query).unwrap().is_empty());

    // change state to confirmed
    let rsvp = manager.change_status(rsvp.id).unwrap();
    let rsvps = manager.query(&query).unwrap();
    assert_eq!(rsvps, vec![rsvp]);
}

#[test]
fn filter_reservations_should_work() {
    let mut manager = ReservationManager::new();
    let rsvp = make_alice_reservation(&mut manager);
    assert!(rsvp.id > 0);

    let filter = ReservationFilterBuilder::default()
        .user_id("alice")
        .status(ReservationStatus::Pending as i32)
        .build()
        .unwrap();
    let (pager, rsvps) = manager.filter(filter).unwrap();
    assert_eq!(pager.prev, None);
    assert_eq!(pager.next, None);

    assert_eq!(rsvps.len(), 1);
    assert_eq!(rsvps[0], rsvp);
}

#[test]
fn overlap_on_other_resource_is_accepted() {
    let mut manager = ReservationManager::new();
    let first = make_luckychacha_reservation(&mut manager);
    let second = make_reservation(
        &mut manager,
        "luckychacha",
        "ocean-view-room-667",
        "2022-12-25T15:00:00+0800",
        "2022-12-28T11:00:00+0800",
        "",
    );
    assert_eq!(first.id, 1);
    assert_eq!(second.id, 2);
}

#[test]
fn adjacent_windows_do_not_conflict() {
    let mut manager = ReservationManager::new();
    make_reservation(&mut manager, "a", "room", "2022-12-25T10:00:00+0000", "2022-12-25T12:00:00+0000", "");
    let later = make_reservation(&mut manager, "b", "room", "2022-12-25T12:00:00+0000", "2022-12-25T14:00:00+0000", "");
    assert_eq!(later.id, 2);
    let err = manager
        .reserve(Reservation::new_pending(
            "c",
            "room",
            ts("2022-12-25T11:59:59+0000"),
            ts("2022-12-25T12:00:01+0000"),
            "",
        ))
        .unwrap_err();
    match err {
        Error::ConflictReservation(ReservationConflictInfo::Parsed(c)) => {
            assert_eq!(c.new.rid, "room");
            assert_eq!(c.old.rid, "room");
            assert_eq!(c.old.start, ts("2022-12-25T10:00:00+0000"));
            assert_eq!(c.new.start, ts("2022-12-25T11:59:59+0000"));
        }
        other => panic!("unexpected {other:?}"),
    }
}

#[test]
fn sent_status_is_ignored_and_overlap_is_refused() {
    let mut manager = ReservationManager::new();
    let first = Reservation::new_pending(
        "a",
        "room-1",
        Timestamp::new(0, 0),
        Timestamp::new(100, 0),
        "",
    );
    let first = manager.reserve(first).unwrap();
    assert_eq!(first.status, ReservationStatus::Pending as i32);

    let mut blocked = Reservation::new_pending(
        "ops",
        "room-1",
        Timestamp::new(50, 0),
        Timestamp::new(150, 0),
        "",
    );
    blocked.status = ReservationStatus::Blocked as i32;
    match manager.reserve(blocked).unwrap_err() {
        Error::ConflictReservation(ReservationConflictInfo::Parsed(c)) => {
            assert_eq!(c.old.rid, "room-1");
            assert_eq!(c.new.rid, "room-1");
        }
        other => panic!("unexpected {other:?}"),
    }
}

#[test]
fn confirmed_status_sent_with_a_new_reservation_is_stored_as_pending() {
    let mut manager = ReservationManager::new();
    let mut rsvp = Reservation::new_pending(
        "a",
        "room",
        ts("2022-12-25T10:00:00+0000"),
        ts("2022-12-25T12:00:00+0000"),
        "n",
    );
    rsvp.status = ReservationStatus::Confirmed as i32;
    let stored = manager.reserve(rsvp).unwrap();
    assert_eq!(stored.status, ReservationStatus::Pending as i32);
    assert_eq!(stored.note, "n");
    let confirmed = manager.change_status(stored.id).unwrap();
    assert_eq!(confirmed.status, ReservationStatus::Confirmed as i32);
}

#[test]
fn unknown_status_is_stored_as_pending() {
    let mut manager = ReservationManager::new();
    let mut rsvp = Reservation::new_pending(
        "a",
        "room",
        ts("2022-12-25T10:00:00+0000"),
        ts("2022-12-25T12:00:00+0000"),
        "",
    );
    rsvp.status = ReservationStatus::Unknown as i32;
    assert_eq!(manager.reserve(rsvp).unwrap().status, ReservationStatus::Pending as i32);
}

#[test]
fn reserve_rejects_invalid_input_without_storing() {
    let mut manager = ReservationManager::new();
    let start = ts("2022-12-25T10:00:00+0000");
    let end = ts("2022-12-25T12:00:00+0000");

    let err = manager.reserve(Reservation::new_pending("", "room", start, end, "")).unwrap_err();
    assert_eq!(err, Error::InvalidUserId(String::new()));
    let err = manager.reserve(Reservation::new_pending("u", "", start, end, "")).unwrap_err();
    assert_eq!(err, Error::InvalidResourceId(String::new()));
    let err = manager.reserve(Reservation::new_pending("u", "room", end, start, "")).unwrap_err();
    assert_eq!(err, Error::InvalidTime);
    let err = manager.reserve(Reservation::new_pending("u", "room", start, start, "")).unwrap_err();
    assert_eq!(err, Error::InvalidTime);
    let mut missing = Reservation::new_pending("u", "room", start, end, "");
    missing.end = None;
    assert_eq!(manager.reserve(missing).unwrap_err(), Error::InvalidTime);
    let mut missing = Reservation::new_pending("u", "room", start, end, "");
    missing.start = None;
    assert_eq!(manager.reserve(missing).unwrap_err(), Error::InvalidTime);

    // nothing was stored: the first valid reservation gets the first id
    let ok = manager.reserve(Reservation::new_pending("u", "room", start, end, "")).unwrap();
    assert_eq!(ok.id, 1);
}

#[test]
fn operations_reject_non_positive_ids() {
    let mut manager = ReservationManager::new();
    assert_eq!(manager.get(0).unwrap_err(), Error::InvalidReservationId(0));
    assert_eq!(manager.change_status(-1).unwrap_err(), Error::InvalidReservationId(-1));
    assert_eq!(manager.update_note(0, "x".into()).unwrap_err(), Error::InvalidReservationId(0));
    assert_eq!(manager.delete(-5).unwrap_err(), Error::InvalidReservationId(-5));
}

#[test]
fn cancel_then_get_is_not_found() {
    let mut manager = ReservationManager::new();
    let rsvp = make_alice_reservation(&mut manager);
    let deleted = manager.delete(rsvp.id).unwrap();
    assert_eq!(deleted, rsvp);
    assert_eq!(manager.get(rsvp.id).unwrap_err(), Error::ReservationNotFound);
    assert_eq!(manager.delete(rsvp.id).unwrap_err(), Error::ReservationNotFound);
    assert_eq!(manager.get(42).unwrap_err(), Error::ReservationNotFound);
}

#[test]
fn cancelled_window_can_be_booked_again() {
    let mut manager = ReservationManager::new();
    let first = make_luckychacha_reservation(&mut manager);
    manager.delete(first.id).unwrap();
    let again = make_luckychacha_reservation(&mut manager);
    assert_eq!(again.id, 2);
}

#[test]
fn note_can_change_after_confirmation() {
    let mut manager = ReservationManager::new();
    let rsvp = make_alice_reservation(&mut manager);
    manager.change_status(rsvp.id).unwrap();
    let updated = manager.update_note(rsvp.id, "late".into()).unwrap();
    assert_eq!(updated.status, ReservationStatus::Confirmed as i32);
    assert_eq!(updated.note, "late");
}

#[test]
fn query_orders_by_id_in_both_directions() {
    let mut manager = ReservationManager::new();
    for i in 0..3 {
        make_reservation(
            &mut manager,
            "alice",
            &format!("room-{i}"),
            "2022-12-25T15:00:00+0800",
            "2022-12-28T11:00:00+0800",
            "",
        );
    }
    make_reservation(&mut manager, "bob", "room-9", "2022-12-25T15:00:00+0800", "2022-12-28T11:00:00+0800", "");
    let mut query = ReservationQuery {
        resource_id: String::new(),
        user_id: "alice".to_string(),
        status: 0,
        start: None,
        end: None,
        page: 0,
        page_size: 10,
        desc: false,
    };
    let ids: Vec<i64> = manager.query(&query).unwrap().iter().map(|r| r.id).collect();
    assert_eq!(ids, vec![1, 2, 3]);
    query.desc = true;
    let ids: Vec<i64> = manager.query(&query).unwrap().iter().map(|r| r.id).collect();
    assert_eq!(ids, vec![3, 2, 1]);
    query.user_id = String::new();
    query.resource_id = "room-9".to_string();
    let ids: Vec<i64> = manager.query(&query).unwrap().iter().map(|r| r.id).collect();
    assert_eq!(ids, vec![4]);
}

#[test]
fn query_rejects_incomplete_or_empty_window() {
    let manager = ReservationManager::new();
    let mut query = query_for(
        "alice",
        "2022-12-28T11:00:00+0800",
        "2022-12-25T15:00:00+0800",
        ReservationStatus::Pending,
    );
    assert_eq!(manager.query(&query).unwrap_err(), Error::InvalidTime);
    query.start = None;
    assert_eq!(manager.query(&query).unwrap_err(), Error::InvalidTime);
    query.end = None;
    assert!(manager.query(&query).unwrap().is_empty());
}

#[test]
fn filter_pages_through_many_reservations() {
    let mut manager = ReservationManager::new();
    for i in 0..25 {
        make_reservation(
            &mut manager,
            "luckychacha-id",
            &format!("ocean-view-room-{i}"),
            "2022-12-25T15:00:00+0800",
            "2022-12-28T11:00:00+0800",
            "Test notes.",
        );
    }

    let filter = ReservationFilterBuilder::default()
        .user_id("luckychacha-id")
        .build()
        .unwrap();
    let (pager, reservations) = manager.filter(filter.clone()).unwrap();
    assert_eq!(pager.next, Some(filter.page_size));
    assert_eq!(pager.prev, None);
    assert_eq!(pager.total, None);
    assert_eq!(reservations.len(), filter.page_size as usize);

    let filter = filter.next_page(&pager).unwrap();
    let (pager, reservations) = manager.filter(filter.clone()).unwrap();
    assert_eq!(pager.next, filter.cursor.map(|v| v + filter.page_size));
    assert_eq!(pager.prev, filter.cursor.map(|v| v + 1));
    assert_eq!(reservations.len(), filter.page_size as usize);
    assert_eq!(reservations[0].id, 11);

    let filter = filter.next_page(&pager).unwrap();
    let (pager, reservations) = manager.filter(filter).unwrap();
    assert_eq!(pager.prev, Some(21));
    assert_eq!(pager.next, None);
    assert_eq!(reservations.len(), 5);
}

#[test]
fn filter_pages_backwards_when_descending() {
    let mut manager = ReservationManager::new();
    for i in 0..12 {
        make_reservation(&mut manager, "u", &format!("r{i}"), "2022-12-25T15:00:00+0800", "2022-12-28T11:00:00+0800", "");
    }
    let filter = ReservationFilterBuilder::default().desc(true).build().unwrap();
    let (pager, rows) = manager.filter(filter).unwrap();
    let ids: Vec<i64> = rows.iter().map(|r| r.id).collect();
    assert_eq!(ids, vec![12, 11, 10, 9, 8, 7, 6, 5, 4, 3]);
    assert_eq!(pager.next, Some(3));
    assert_eq!(pager.prev, None);
}

#[test]
fn filter_rejects_bad_page_size_before_reading() {
    let manager = ReservationManager::new();
    let mut filter = ReservationFilterBuilder::default().build().unwrap();
    filter.page_size = 9;
    assert_eq!(manager.filter(filter).unwrap_err(), Error::InvalidPageSize(9));
}
