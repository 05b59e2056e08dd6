use access_log::clock::{normalize_device_time, TimeOfDay};
use access_log::ingest::{
    decide_authorization, finish_upload, prepare_insert, LookupOutcome, UploadData, UploadReply,
};

fn upload(uid: &str, stamp: Option<&str>) -> UploadData {
    UploadData {
        user_id: uid.to_string(),
        direction: "in".to_string(),
        device_name: "door-1".to_string(),
        device_timestamp: stamp.map(|s| s.to_string()),
    }
}

fn stored(stamp: Option<&str>) -> Option<TimeOfDay> {
    normalize_device_time(&stamp.map(|s| s.to_string()))
}

#[test]
fn found_user_is_authorized_under_their_name() {
    let d = decide_authorization(LookupOutcome::Found("Alice".to_string()));
    assert!(d.authorized);
    assert_eq!(d.user, "Alice");
}

#[test]
fn missing_user_is_unknown() {
    let d = decide_authorization(LookupOutcome::NotFound);
    assert!(!d.authorized);
    assert_eq!(d.user, "unknown");
}

#[test]
fn failed_lookup_fails_closed() {
    let d = decide_authorization(LookupOutcome::Failed("connection reset".to_string()));
    assert!(!d.authorized);
    assert_eq!(d.user, "unknown");
}

#[test]
fn empty_user_id_is_a_plain_key() {
    let p = prepare_insert(upload("", None), LookupOutcome::NotFound);
    assert_eq!(p.event.user_id, "");
    assert!(!p.event.authorized);
    assert_eq!(p.event.authorized_flag(), 0);
}

#[test]
fn time_of_day_is_kept_and_date_dropped() {
    let t = TimeOfDay { hour: 8, minute: 30, second: 0 };
    assert_eq!(stored(Some("2024-01-05T08:30")), Some(t));
    assert_eq!(stored(Some("1999-12-31T08:30")), Some(t));
    assert_eq!(stored(Some("2024-02-29T23:59")), Some(TimeOfDay { hour: 23, minute: 59, second: 0 }));
    assert_eq!(stored(Some("2024-01-05T00:00")), Some(TimeOfDay { hour: 0, minute: 0, second: 0 }));
}

#[test]
fn absent_or_malformed_timestamp_is_no_time() {
    assert_eq!(stored(None), None);
    assert_eq!(stored(Some("")), None);
    assert_eq!(stored(Some("not a time")), None);
    assert_eq!(stored(Some("2024-01-05")), None);
    assert_eq!(stored(Some("2023-02-29T08:30")), None);
    assert_eq!(stored(Some("2024-01-05T24:00")), None);
    assert_eq!(stored(Some("2024-13-05T08:30")), None);
    assert_eq!(stored(Some("2024-01-05T08:30:15")), None);
}

#[test]
fn malformed_timestamp_still_succeeds() {
    let p = prepare_insert(upload("u1", Some("yesterday")), LookupOutcome::Found("Bob".to_string()));
    assert_eq!(p.event.device_time, None);
    let r = finish_upload(p.decision, Ok(()));
    assert!(r.success());
    assert_eq!(r.status(), 200);
}

#[test]
fn prepared_record_carries_event_and_decision() {
    let p = prepare_insert(upload("u7", Some("2024-01-05T08:30")), LookupOutcome::Found("Carol".to_string()));
    assert_eq!(p.event.user_id, "u7");
    assert_eq!(p.event.direction, "in");
    assert_eq!(p.event.device_name, "door-1");
    assert_eq!(p.event.device_time, Some(TimeOfDay { hour: 8, minute: 30, second: 0 }));
    assert!(p.event.authorized);
    assert_eq!(p.event.authorized_flag(), 1);
    assert!(p.decision.authorized);
    assert_eq!(p.decision.user, "Carol");
}

#[test]
fn recorded_reply_reports_decision() {
    let p = prepare_insert(upload("u7", None), LookupOutcome::Found("Carol".to_string()));
    match finish_upload(p.decision, Ok(())) {
        UploadReply::Recorded { authorized, user } => {
            assert!(authorized);
            assert_eq!(user, "Carol");
        }
        UploadReply::Rejected { .. } => panic!("insert succeeded"),
    }
    let q = prepare_insert(upload("nobody", None), LookupOutcome::NotFound);
    match finish_upload(q.decision, Ok(())) {
        UploadReply::Recorded { authorized, user } => {
            assert!(!authorized);
            assert_eq!(user, "unknown");
        }
        UploadReply::Rejected { .. } => panic!("insert succeeded"),
    }
}

#[test]
fn failed_insert_is_reported_in_the_body() {
    let p = prepare_insert(upload("u7", None), LookupOutcome::Found("Carol".to_string()));
    let r = finish_upload(p.decision, Err("store unavailable".to_string()));
    assert!(!r.success());
    assert_eq!(r.status(), 200);
    match r {
        UploadReply::Rejected { error } => assert_eq!(error, "write error: store unavailable"),
        UploadReply::Recorded { .. } => panic!("insert failed"),
    }
}
