use dog_walking::dog::{DogRequest, DogStore, DogUpdateRequest};
use dog_walking::errors::AppError;

const OWNER_HEX: &str = "0123456789abcdef01234567";

fn rex() -> DogRequest {
    DogRequest {
        owner: OWNER_HEX.to_string(),
        name: "Rex".to_string(),
        age: Some(4),
        breed: Some("Collie".to_string()),
    }
}

#[test]
fn create_dog_decodes_owner_and_echoes_fields() {
    let resp = rex().to_entity().unwrap().to_response();
    assert_eq!(resp.owner, OWNER_HEX);
    assert_eq!(resp.name, "Rex");
    assert_eq!(resp.age, Some(4));
    assert_eq!(resp.breed.as_deref(), Some("Collie"));
    assert_eq!(resp._id.len(), 24);
}

#[test]
fn create_dog_normalizes_uppercase_owner() {
    let mut q = rex();
    q.owner = "ABCDEF0123456789ABCDEF01".to_string();
    let resp = q.to_entity().unwrap().to_response();
    assert_eq!(resp.owner, "abcdef0123456789abcdef01");
}

#[test]
fn create_dog_with_malformed_owner_fails() {
    let mut q = rex();
    q.owner = "not-an-identifier".to_string();
    assert_eq!(
        q.to_entity().unwrap_err(),
        AppError::DatabaseError("Invalid owner ID".to_string())
    );
}

#[test]
fn create_dog_without_optional_fields() {
    let q = DogRequest {
        owner: OWNER_HEX.to_string(),
        name: "Stray".to_string(),
        age: None,
        breed: None,
    };
    let resp = q.to_entity().unwrap().to_response();
    assert_eq!(resp.age, None);
    assert_eq!(resp.breed, None);
}

#[test]
fn dog_update_with_malformed_owner_fails() {
    let u = DogUpdateRequest {
        owner: Some("zzz".to_string()),
        name: Some("Rexy".to_string()),
        age: None,
        breed: None,
    };
    assert_eq!(
        u.build_update().unwrap_err(),
        AppError::DatabaseError("Update Failed: invalid owner ID".to_string())
    );
}

#[test]
fn empty_dog_update_fails_and_leaves_store_untouched() {
    let mut store = DogStore::new();
    let dog = rex().to_entity().unwrap();
    let id = dog._id.to_hex();
    store.create(dog).unwrap();

    let u = DogUpdateRequest { owner: None, name: None, age: None, breed: None };
    assert_eq!(
        store.update(&id, u).unwrap_err(),
        AppError::ParseError("No fields provided to update".to_string())
    );
    let read = store.read_one(&id).unwrap();
    assert_eq!(read.name, "Rex");
    assert_eq!(read.age, Some(4));
}

#[test]
fn dog_update_merges_only_supplied_fields() {
    let mut store = DogStore::new();
    let dog = rex().to_entity().unwrap();
    let id = dog._id.to_hex();
    store.create(dog).unwrap();

    let u = DogUpdateRequest {
        owner: None,
        name: Some("Max".to_string()),
        age: Some(5),
        breed: None,
    };
    assert_eq!(store.update(&id, u).unwrap(), id);
    let read = store.read_one(&id).unwrap();
    assert_eq!(read.name, "Max");
    assert_eq!(read.age, Some(5));
    assert_eq!(read.breed.as_deref(), Some("Collie"));
    assert_eq!(read.owner.to_hex(), OWNER_HEX);
}

#[test]
fn dog_delete_twice_succeeds_then_not_found() {
    let mut store = DogStore::new();
    let dog = rex().to_entity().unwrap();
    let id = dog._id.to_hex();
    store.create(dog).unwrap();
    assert_eq!(store.delete(&id).unwrap(), id);
    assert_eq!(store.delete(&id).unwrap_err(), AppError::NotFound);
}
