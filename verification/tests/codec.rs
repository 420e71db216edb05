use dog_walking::errors::AppError;
use dog_walking::oid::EntityId;

#[test]
fn decode_valid_lowercase_round_trips() {
    let s = "0123456789abcdef01234567";
    let id = EntityId::decode(s).unwrap();
    assert_eq!(id.to_hex(), s);
}

#[test]
fn decode_uppercase_normalizes_to_lowercase() {
    let id = EntityId::decode("ABCDEF0123456789ABCDEF01").unwrap();
    assert_eq!(id.to_hex(), "abcdef0123456789abcdef01");
}

#[test]
fn decode_mixed_case_equals_lowercase() {
    let a = EntityId::decode("AbCdEf0123456789aBcDeF01").unwrap();
    let b = EntityId::decode("abcdef0123456789abcdef01").unwrap();
    assert!(a.matches_id(&b));
}

#[test]
fn decode_rejects_short_string() {
    assert_eq!(EntityId::decode("xyz"), Err(AppError::InvalidId));
}

#[test]
fn decode_rejects_empty_string() {
    assert_eq!(EntityId::decode(""), Err(AppError::InvalidId));
}

#[test]
fn decode_rejects_23_chars() {
    assert_eq!(EntityId::decode("0123456789abcdef0123456"), Err(AppError::InvalidId));
}

#[test]
fn decode_rejects_25_chars() {
    assert_eq!(EntityId::decode("0123456789abcdef012345678"), Err(AppError::InvalidId));
}

#[test]
fn decode_rejects_non_hex_character() {
    assert_eq!(EntityId::decode("0123456789abcdef0123456g"), Err(AppError::InvalidId));
}

#[test]
fn decode_rejects_non_ascii() {
    assert_eq!(EntityId::decode("0123456789abcdef0123456é"), Err(AppError::InvalidId));
}

#[test]
fn error_messages_render_each_kind() {
    assert_eq!(AppError::InvalidId.message(), "Invalid ID format");
    assert_eq!(AppError::NotFound.message(), "Item not found");
    assert_eq!(AppError::InternalError.message(), "Internal server error");
    assert_eq!(
        AppError::DatabaseError("boom".to_string()).message(),
        "Database error: boom"
    );
    assert_eq!(
        AppError::ParseError("bad date".to_string()).message(),
        "Parse error: bad date"
    );
}
