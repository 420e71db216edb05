use dog_walking::errors::AppError;
use dog_walking::sitter::{SitterRequest, SitterStore, SitterUpdateRequest};

fn sam() -> SitterRequest {
    SitterRequest {
        firstname: "Sam".to_string(),
        lastname: "Walker".to_string(),
        gender: "m".to_string(),
        email: "sam@example.com".to_string(),
        phone: "5559876543".to_string(),
        address: "2 Side St".to_string(),
    }
}

#[test]
fn create_sitter_echoes_fields_and_generates_hex_id() {
    let resp = sam().to_entity().unwrap().to_response();
    assert_eq!(resp._id.len(), 24);
    assert!(resp._id.chars().all(|c| c.is_ascii_hexdigit() && !c.is_ascii_uppercase()));
    assert_eq!(resp.firstname, "Sam");
    assert_eq!(resp.lastname, "Walker");
    assert_eq!(resp.gender, "m");
    assert_eq!(resp.email, "sam@example.com");
    assert_eq!(resp.phone, "5559876543");
    assert_eq!(resp.address, "2 Side St");
}

#[test]
fn read_missing_sitter_by_well_formed_id_is_not_found() {
    let store = SitterStore::new();
    assert_eq!(
        store.read_one("0123456789abcdef01234567").unwrap_err(),
        AppError::NotFound
    );
}

#[test]
fn read_sitter_by_malformed_id_is_invalid_id() {
    let store = SitterStore::new();
    assert_eq!(store.read_one("nope").unwrap_err(), AppError::InvalidId);
}

#[test]
fn empty_sitter_update_fails_with_parse_error() {
    let u = SitterUpdateRequest {
        firstname: None,
        lastname: None,
        gender: None,
        email: None,
        phone: None,
        address: None,
    };
    assert_eq!(
        u.build_update().unwrap_err(),
        AppError::ParseError("No fields provided to update".to_string())
    );
}

#[test]
fn sitter_update_merges_only_supplied_fields() {
    let mut store = SitterStore::new();
    let sitter = sam().to_entity().unwrap();
    let id = sitter._id.to_hex();
    store.create(sitter).unwrap();

    let u = SitterUpdateRequest {
        firstname: None,
        lastname: None,
        gender: None,
        email: None,
        phone: Some("5550000000".to_string()),
        address: None,
    };
    assert_eq!(store.update(&id, u).unwrap(), id);
    let read = store.read_one(&id).unwrap();
    assert_eq!(read.phone, "5550000000");
    assert_eq!(read.firstname, "Sam");
    assert_eq!(read.address, "2 Side St");
}

#[test]
fn sitter_delete_twice_succeeds_then_not_found() {
    let mut store = SitterStore::new();
    let sitter = sam().to_entity().unwrap();
    let id = sitter._id.to_hex();
    store.create(sitter).unwrap();
    assert_eq!(store.delete(&id).unwrap(), id);
    assert_eq!(store.delete(&id).unwrap_err(), AppError::NotFound);
}
