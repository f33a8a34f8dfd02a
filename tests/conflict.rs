use chrono::{DateTime, Utc};
use reservation::{
    parse_str_into_datetime_utc, FieldMap, ParsedInfo, ReservationConflict,
    ReservationConflictInfo, ReservationWindow, Timestamp,
};

const ERR_MSG: &str = "Key (resource_id, timespan)=(ocean-view-room-666, [\"2022-12-25 07:00:00+00\",\"2022-12-28 03:00:00+00\")) conflicts with existing key (resource_id, timespan)=(ocean-view-room-666, [\"2022-12-25 07:00:00+00\",\"2022-12-28 03:00:00+00\")).";

fn rfc3339(t: &Timestamp) -> String {
    DateTime::<Utc>::from_timestamp(t.seconds, t.nanos as u32)
        .unwrap()
        .to_rfc3339()
}

#[test]
fn parsed_datetime_should_work() {
    let dt = parse_str_into_datetime_utc("2022-12-26 22:00:00+00").unwrap();
    println!("dt: {}", rfc3339(&dt));
    assert_eq!(rfc3339(&dt), "2022-12-26T22:00:00+00:00");
}

#[test]
fn parsed_info_should_work() {
    let info = ParsedInfo::from_str(ERR_MSG).unwrap();
    assert_eq!(info.new.get("resource_id").unwrap(), "ocean-view-room-666");
}

#[test]
fn hash_map_to_reservation_window_should_work() {
    let mut map = FieldMap::new();
    map.insert("resource_id".to_string(), "ocean-view-room-666".to_string());
    map.insert(
        "timespan".to_string(),
        "\"2022-12-25 07:00:00+00\",\"2022-12-28 03:00:00+00\"".to_string(),
    );
    let window = ReservationWindow::try_from(map).unwrap();
    assert_eq!(window.rid, "ocean-view-room-666");
    assert_eq!(rfc3339(&window.start), "2022-12-25T07:00:00+00:00");
    assert_eq!(rfc3339(&window.end), "2022-12-28T03:00:00+00:00");
}

#[test]
fn conflict_error_message_should_parse() {
    let info = ReservationConflictInfo::from_str(ERR_MSG);
    match info {
        ReservationConflictInfo::Parsed(conflict) => {
            assert_eq!(conflict.new.rid, "ocean-view-room-666");
            assert_eq!(conflict.old.rid, "ocean-view-room-666");
            assert_eq!(rfc3339(&conflict.old.start), "2022-12-25T07:00:00+00:00");
        }
        ReservationConflictInfo::Unparsed(_) => panic!("should be parsed"),
    }
}

#[test]
fn offset_timestamps_are_converted_to_utc() {
    let t = parse_str_into_datetime_utc("2022-12-25 15:00:00+08").unwrap();
    assert_eq!(rfc3339(&t), "2022-12-25T07:00:00+00:00");
    assert_eq!(t, Timestamp::new(1671951600, 0));
    let t = parse_str_into_datetime_utc("2022-12-25 01:30:00-0530").unwrap();
    assert_eq!(rfc3339(&t), "2022-12-25T07:00:00+00:00");
}

#[test]
fn malformed_timestamps_are_rejected() {
    assert!(parse_str_into_datetime_utc("2022-12-25T07:00:00+00").is_err());
    assert!(parse_str_into_datetime_utc("2022-12-25 07:00:00").is_err());
    assert!(parse_str_into_datetime_utc("").is_err());
}

#[test]
fn two_groups_decode_into_new_and_old_windows() {
    let msg = "Key (resource_id, timespan)=(room-a, [\"2023-01-01 10:00:00+02\",\"2023-01-02 10:00:00+02\")) conflicts with existing key (resource_id, timespan)=(room-b, [\"2022-12-31 00:00:00+00\",\"2023-01-03 00:00:00+00\")).";
    match ReservationConflictInfo::from_str(msg) {
        ReservationConflictInfo::Parsed(c) => {
            assert_eq!(c.new.rid, "room-a");
            assert_eq!(c.old.rid, "room-b");
            assert_eq!(rfc3339(&c.new.start), "2023-01-01T08:00:00+00:00");
            assert_eq!(rfc3339(&c.new.end), "2023-01-02T08:00:00+00:00");
            assert_eq!(rfc3339(&c.old.start), "2022-12-31T00:00:00+00:00");
            assert_eq!(rfc3339(&c.old.end), "2023-01-03T00:00:00+00:00");
        }
        ReservationConflictInfo::Unparsed(_) => panic!("should be parsed"),
    }
}

#[test]
fn diagnostic_without_groups_stays_unparsed() {
    let msg = "duplicate key value violates unique constraint";
    assert_eq!(
        ReservationConflictInfo::from_str(msg),
        ReservationConflictInfo::Unparsed(msg.to_string())
    );
    assert!(ParsedInfo::from_str(msg).is_err());
    assert!(ReservationConflict::from_str(msg).is_err());
}

#[test]
fn diagnostic_with_one_group_stays_unparsed() {
    let msg = "Key (resource_id, timespan)=(room-a, [\"2023-01-01 10:00:00+02\",\"2023-01-02 10:00:00+02\"))";
    assert_eq!(
        ReservationConflictInfo::from_str(msg),
        ReservationConflictInfo::Unparsed(msg.to_string())
    );
}

#[test]
fn diagnostic_with_three_groups_stays_unparsed() {
    let group = "(resource_id, timespan)=(room-a, [\"2023-01-01 10:00:00+02\",\"2023-01-02 10:00:00+02\"))";
    let msg = format!("{group} {group} {group}");
    assert!(ParsedInfo::from_str(&msg).is_err());
    assert_eq!(
        ReservationConflictInfo::from_str(&msg),
        ReservationConflictInfo::Unparsed(msg.clone())
    );
}

#[test]
fn unparsable_timestamp_keeps_raw_text() {
    let msg = "Key (resource_id, timespan)=(room-a, [\"soon\",\"later\")) conflicts with existing key (resource_id, timespan)=(room-a, [\"soon\",\"later\")).";
    assert!(ParsedInfo::from_str(msg).is_ok());
    assert_eq!(
        ReservationConflictInfo::from_str(msg),
        ReservationConflictInfo::Unparsed(msg.to_string())
    );
}

#[test]
fn group_fields_follow_the_pattern() {
    let msg = "x(k1,\t k2)=(v-1,  [anything, here]y (a_b, c)=(d, [e))";
    let info = ParsedInfo::from_str(msg).unwrap();
    assert_eq!(info.new.get("k1").unwrap(), "v-1");
    assert_eq!(info.new.get("k2").unwrap(), "anything, here");
    assert_eq!(info.old.get("a_b").unwrap(), "d");
    assert_eq!(info.old.get("c").unwrap(), "e");
    assert!(info.old.get("k1").is_none());
}

#[test]
fn equal_keys_keep_the_second_value() {
    let msg = "(k, k)=(first, [second) (k, k)=(third, [fourth)";
    let info = ParsedInfo::from_str(msg).unwrap();
    assert_eq!(info.new.get("k").unwrap(), "second");
    assert_eq!(info.old.get("k").unwrap(), "fourth");
}

#[test]
fn window_needs_both_fields_and_a_comma() {
    let mut map = FieldMap::new();
    map.insert("resource_id".to_string(), "r".to_string());
    assert!(ReservationWindow::try_from(map).is_err());

    let mut map = FieldMap::new();
    map.insert(
        "timespan".to_string(),
        "\"2022-12-25 07:00:00+00\",\"2022-12-28 03:00:00+00\"".to_string(),
    );
    assert!(ReservationWindow::try_from(map).is_err());

    let mut map = FieldMap::new();
    map.insert("resource_id".to_string(), "r".to_string());
    map.insert("timespan".to_string(), "\"2022-12-25 07:00:00+00\"".to_string());
    assert!(ReservationWindow::try_from(map).is_err());
}
