use dog_walking::booking::{BookingRequest, BookingStore, BookingUpdateRequest};
use dog_walking::errors::AppError;
use dog_walking::time::parse_start_time;

const OWNER_HEX: &str = "0123456789abcdef01234567";
const NOON_MILLIS: i64 = 1745841600000;

fn noon_booking() -> BookingRequest {
    BookingRequest {
        owner: OWNER_HEX.to_string(),
        start_time: "2025-04-28T12:00:00Z".to_string(),
        duration_minutes: 30,
    }
}

#[test]
fn create_booking_parses_start_time_to_the_exact_instant() {
    let booking = noon_booking().to_entity().unwrap();
    assert_eq!(booking.start_time.millis, NOON_MILLIS);
    assert_eq!(booking.duration_minutes, 30);
    assert!(!booking.cancelled);
}

#[test]
fn booking_response_start_time_round_trips_to_the_same_instant() {
    let resp = noon_booking().to_entity().unwrap().to_response();
    let reparsed = parse_start_time(&resp.start_time).unwrap();
    assert_eq!(reparsed.millis, NOON_MILLIS);
    assert_eq!(resp.owner, OWNER_HEX);
    assert_eq!(resp.duration_minutes, 30);
    assert!(!resp.cancelled);
    assert_eq!(resp._id.len(), 24);
}

#[test]
fn start_time_honours_fractional_seconds() {
    assert_eq!(
        parse_start_time("2025-04-28T12:00:00.500Z").unwrap().millis,
        NOON_MILLIS + 500
    );
}

#[test]
fn start_time_honours_utc_offset() {
    assert_eq!(
        parse_start_time("2025-04-28T14:00:00+02:00").unwrap().millis,
        NOON_MILLIS
    );
}

#[test]
fn start_time_before_epoch_is_negative() {
    assert_eq!(parse_start_time("1969-12-31T23:59:59Z").unwrap().millis, -1000);
}

#[test]
fn malformed_start_time_fails_create_with_parse_error() {
    let mut q = noon_booking();
    q.start_time = "not-a-date".to_string();
    match q.to_entity().unwrap_err() {
        AppError::ParseError(m) => {
            assert!(
                m.starts_with("Failed to parse start time: ")
                    || m == "Start time must include a date"
            );
        },
        other => panic!("expected ParseError, got {:?}", other),
    }
}

#[test]
fn time_without_date_fails_create_with_parse_error() {
    let mut q = noon_booking();
    q.start_time = "12:00:00Z".to_string();
    assert!(matches!(q.to_entity().unwrap_err(), AppError::ParseError(_)));
}

#[test]
fn date_without_time_fails_create_with_parse_error() {
    let mut q = noon_booking();
    q.start_time = "2025-04-28".to_string();
    assert!(matches!(q.to_entity().unwrap_err(), AppError::ParseError(_)));
}

#[test]
fn malformed_start_time_is_rejected_before_malformed_owner() {
    let q = BookingRequest {
        owner: "zzz".to_string(),
        start_time: "garbage".to_string(),
        duration_minutes: 10,
    };
    assert!(matches!(q.to_entity().unwrap_err(), AppError::ParseError(_)));
}

#[test]
fn malformed_owner_fails_create_with_database_error() {
    let mut q = noon_booking();
    q.owner = "zzz".to_string();
    assert_eq!(
        q.to_entity().unwrap_err(),
        AppError::DatabaseError("Invalid owner ID".to_string())
    );
}

#[test]
fn delete_booking_by_malformed_id_is_invalid_id() {
    let mut store = BookingStore::new();
    let booking = noon_booking().to_entity().unwrap();
    let id = booking._id.to_hex();
    store.create(booking).unwrap();
    assert_eq!(store.delete("xyz").unwrap_err(), AppError::InvalidId);
    assert_eq!(store.read_all().len(), 1);
    assert!(store.read_one(&id).is_ok());
}

#[test]
fn booking_delete_twice_succeeds_then_not_found() {
    let mut store = BookingStore::new();
    let booking = noon_booking().to_entity().unwrap();
    let id = booking._id.to_hex();
    store.create(booking).unwrap();
    assert_eq!(store.delete(&id).unwrap(), id);
    assert_eq!(store.delete(&id).unwrap_err(), AppError::NotFound);
}

#[test]
fn empty_booking_update_fails_with_parse_error() {
    let u = BookingUpdateRequest {
        owner: None,
        start_time: None,
        duration_minutes: None,
        cancelled: None,
    };
    assert_eq!(
        u.build_update().unwrap_err(),
        AppError::ParseError("No fields provided to update".to_string())
    );
}

#[test]
fn booking_update_with_malformed_start_time_fails() {
    let u = BookingUpdateRequest {
        owner: None,
        start_time: Some("yesterday at noon".to_string()),
        duration_minutes: Some(15),
        cancelled: None,
    };
    assert!(matches!(u.build_update().unwrap_err(), AppError::ParseError(_)));
}

#[test]
fn booking_update_with_malformed_owner_fails_before_start_time() {
    let u = BookingUpdateRequest {
        owner: Some("bad".to_string()),
        start_time: Some("also bad".to_string()),
        duration_minutes: None,
        cancelled: None,
    };
    assert_eq!(
        u.build_update().unwrap_err(),
        AppError::DatabaseError("Update Failed: invalid owner ID".to_string())
    );
}

#[test]
fn cancelling_a_booking_keeps_every_other_field() {
    let mut store = BookingStore::new();
    let booking = noon_booking().to_entity().unwrap();
    let id = booking._id.to_hex();
    store.create(booking).unwrap();

    let u = BookingUpdateRequest {
        owner: None,
        start_time: None,
        duration_minutes: None,
        cancelled: Some(true),
    };
    assert_eq!(store.update(&id, u).unwrap(), id);
    let read = store.read_one(&id).unwrap();
    assert!(read.cancelled);
    assert_eq!(read.start_time.millis, NOON_MILLIS);
    assert_eq!(read.duration_minutes, 30);
    assert_eq!(read.owner.to_hex(), OWNER_HEX);
}

#[test]
fn booking_update_can_move_the_start_time() {
    let mut store = BookingStore::new();
    let booking = noon_booking().to_entity().unwrap();
    let id = booking._id.to_hex();
    store.create(booking).unwrap();

    let u = BookingUpdateRequest {
        owner: None,
        start_time: Some("2025-04-29T09:30:00Z".to_string()),
        duration_minutes: None,
        cancelled: None,
    };
    assert_eq!(store.update(&id, u).unwrap(), id);
    let read = store.read_one(&id).unwrap();
    let expected = parse_start_time("2025-04-29T09:30:00Z").unwrap();
    assert_eq!(read.start_time.millis, expected.millis);
    assert!(!read.cancelled);
}
