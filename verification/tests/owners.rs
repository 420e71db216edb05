use dog_walking::errors::AppError;
use dog_walking::owner::{OwnerRequest, OwnerStore, OwnerUpdateRequest};
use dog_walking::response::{ErrorJsonApiResponse, JsonApiResponse};

fn jane() -> OwnerRequest {
    OwnerRequest {
        name: "Jane Doe".to_string(),
        email: "jane@example.com".to_string(),
        phone: "5551234567".to_string(),
        address: "1 Main St".to_string(),
    }
}

#[test]
fn create_owner_echoes_fields_and_generates_hex_id() {
    let resp = jane().to_entity().unwrap().to_response();
    assert_eq!(resp._id.len(), 24);
    assert!(resp._id.chars().all(|c| c.is_ascii_hexdigit() && !c.is_ascii_uppercase()));
    assert_eq!(resp.name, "Jane Doe");
    assert_eq!(resp.email, "jane@example.com");
    assert_eq!(resp.phone, "5551234567");
    assert_eq!(resp.address, "1 Main St");
}

#[test]
fn two_creates_get_distinct_ids() {
    let a = jane().to_entity().unwrap().to_response();
    let b = jane().to_entity().unwrap().to_response();
    assert_ne!(a._id, b._id);
}

#[test]
fn empty_update_fails_with_parse_error() {
    let u = OwnerUpdateRequest { name: None, email: None, phone: None, address: None };
    assert_eq!(
        u.build_update().unwrap_err(),
        AppError::ParseError("No fields provided to update".to_string())
    );
}

#[test]
fn update_with_one_field_is_accepted() {
    let u = OwnerUpdateRequest {
        name: Some("Janet".to_string()),
        email: None,
        phone: None,
        address: None,
    };
    let f = u.build_update().unwrap();
    assert_eq!(f.name.as_deref(), Some("Janet"));
    assert!(f.email.is_none() && f.phone.is_none() && f.address.is_none());
}

#[test]
fn store_create_read_update_delete() {
    let mut store = OwnerStore::new();
    let owner = jane().to_entity().unwrap();
    let id = owner._id.to_hex();
    store.create(owner).unwrap();

    let read = store.read_one(&id).unwrap();
    assert_eq!(read.name, "Jane Doe");

    let u = OwnerUpdateRequest {
        name: None,
        email: Some("jane.doe@example.com".to_string()),
        phone: None,
        address: None,
    };
    assert_eq!(store.update(&id, u).unwrap(), id);
    let read = store.read_one(&id).unwrap();
    assert_eq!(read.email, "jane.doe@example.com");
    assert_eq!(read.name, "Jane Doe");
    assert_eq!(read.phone, "5551234567");

    assert_eq!(store.delete(&id).unwrap(), id);
    assert_eq!(store.read_one(&id).unwrap_err(), AppError::NotFound);
}

#[test]
fn delete_twice_succeeds_then_not_found() {
    let mut store = OwnerStore::new();
    let owner = jane().to_entity().unwrap();
    let id = owner._id.to_hex();
    store.create(owner).unwrap();
    assert_eq!(store.delete(&id).unwrap(), id);
    assert_eq!(store.delete(&id).unwrap_err(), AppError::NotFound);
}

#[test]
fn empty_update_never_reaches_store() {
    let mut store = OwnerStore::new();
    let owner = jane().to_entity().unwrap();
    let id = owner._id.to_hex();
    store.create(owner).unwrap();
    let u = OwnerUpdateRequest { name: None, email: None, phone: None, address: None };
    assert!(matches!(store.update(&id, u), Err(AppError::ParseError(_))));
    let read = store.read_one(&id).unwrap();
    assert_eq!(read.name, "Jane Doe");
    assert_eq!(read.email, "jane@example.com");
}

#[test]
fn store_update_on_missing_document_reports_success() {
    let mut store = OwnerStore::new();
    let id = "0123456789abcdef01234567";
    let u = OwnerUpdateRequest {
        name: Some("Nobody".to_string()),
        email: None,
        phone: None,
        address: None,
    };
    assert_eq!(store.update(id, u).unwrap(), id);
    assert!(store.read_all().is_empty());
}

#[test]
fn creating_a_duplicate_identifier_is_a_store_error() {
    let mut store = OwnerStore::new();
    let owner = jane().to_entity().unwrap();
    let twin = owner.clone();
    store.create(owner).unwrap();
    assert_eq!(
        store.create(twin).unwrap_err(),
        AppError::DatabaseError("duplicate identifier".to_string())
    );
    assert_eq!(store.read_all().len(), 1);
}

#[test]
fn read_all_returns_every_owner() {
    let mut store = OwnerStore::new();
    store.create(jane().to_entity().unwrap()).unwrap();
    store.create(jane().to_entity().unwrap()).unwrap();
    assert_eq!(store.read_all().len(), 2);
}

#[test]
fn envelopes_wrap_success_and_errors() {
    let ok = JsonApiResponse::success(5u8);
    assert!(ok.success);
    assert_eq!(ok.data, Some(5));
    assert!(ok.message.is_none());

    let msg = JsonApiResponse::with_message("Owner Deleted: 0123456789abcdef01234567");
    assert!(msg.success);
    assert_eq!(msg.message.as_deref(), Some("Owner Deleted: 0123456789abcdef01234567"));

    let err = ErrorJsonApiResponse::from_app_error(&AppError::NotFound);
    assert_eq!(err.error, "Item not found");
    let err = ErrorJsonApiResponse::from_message("Invalid input.");
    assert_eq!(err.error, "Invalid input.");
}
