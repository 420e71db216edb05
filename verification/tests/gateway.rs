use dog_walking::errors::AppError;
use dog_walking::gateway::{
    create_outcome, cursor_error, delete_outcome, find_outcome, update_outcome, InsertAck,
};
use dog_walking::oid::EntityId;

const ID_HEX: &str = "0123456789abcdef01234567";

#[test]
fn create_outcome_returns_entity_on_object_id_ack() {
    assert_eq!(create_outcome(7u8, InsertAck::ObjectIdAck, "Owner"), Ok(7u8));
}

#[test]
fn create_outcome_rejects_odd_acknowledgment() {
    let r = create_outcome(7u8, InsertAck::Other("Null".to_string()), "Owner");
    assert_eq!(
        r,
        Err(AppError::DatabaseError("Failed to Create new Owner: Null".to_string()))
    );
}

#[test]
fn cursor_error_names_the_resource_and_detail() {
    assert_eq!(
        cursor_error("Booking", "connection reset"),
        AppError::DatabaseError("Error reading Booking entries from DB: connection reset".to_string())
    );
}

#[test]
fn find_outcome_maps_none_to_not_found() {
    assert_eq!(find_outcome(Some(3u8)), Ok(3u8));
    assert_eq!(find_outcome::<u8>(None), Err(AppError::NotFound));
}

#[test]
fn update_outcome_reports_success_with_hex_id() {
    let id = EntityId::decode(ID_HEX).unwrap();
    assert_eq!(update_outcome(&id, None, "Dog"), Ok(ID_HEX.to_string()));
    assert_eq!(
        update_outcome(&id, Some("timeout".to_string()), "Dog"),
        Err(AppError::DatabaseError("Failed to Update Dog: timeout".to_string()))
    );
}

#[test]
fn delete_outcome_maps_each_count() {
    let id = EntityId::decode(ID_HEX).unwrap();
    assert_eq!(delete_outcome(&id, Ok(1), "Sitter"), Ok(ID_HEX.to_string()));
    assert_eq!(delete_outcome(&id, Ok(2), "Sitter"), Ok(ID_HEX.to_string()));
    assert_eq!(delete_outcome(&id, Ok(0), "Sitter"), Err(AppError::NotFound));
    assert_eq!(delete_outcome(&id, Ok(-1), "Sitter"), Err(AppError::InternalError));
    assert_eq!(
        delete_outcome(&id, Err("io error".to_string()), "Sitter"),
        Err(AppError::DatabaseError("Failed to Delete Sitter: io error".to_string()))
    );
}
