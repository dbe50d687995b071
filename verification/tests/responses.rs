use rustserve_platform::errors::EntityNotFoundError;
use rustserve_platform::errors::InternalServerError;
use rustserve_platform::errors::InvalidParameterError;
use rustserve_platform::errors::InvalidPayloadError;
use rustserve_platform::errors::MissingParameterError;
use rustserve_platform::errors::ServiceUnavailableError;
use rustserve_platform::responses::ApiResponse;
use rustserve_platform::responses::EntityWithId;
use rustserve_platform::responses::SeqApiResponse;

struct TestEntity {
    name: String,
}

#[test]
fn entity_with_id_keeps_id_and_entity() {
    let entity = TestEntity { name: "someone".to_string() };
    let wrapped = EntityWithId::new(1, entity);
    assert_eq!(wrapped.id, 1);
    assert_eq!(wrapped.entity.name, "someone");
}

#[test]
fn api_response_keeps_name_and_entity() {
    let entity = TestEntity { name: "someone".to_string() };
    let response = ApiResponse::new("tests".to_string(), entity);
    assert_eq!(response.entity_name, "tests");
    assert_eq!(response.entity.name, "someone");
}

#[test]
fn seq_api_response_counts_its_page() {
    let entities = vec![
        TestEntity { name: "a".to_string() },
        TestEntity { name: "b".to_string() },
    ];
    let response = SeqApiResponse::new("users".to_string(), 0, 0, entities);
    assert_eq!(response.total, 0);
    assert_eq!(response.count, 2);
    assert_eq!(response.offset, 0);
    assert_eq!(response.entity_name, "users");
    assert_eq!(response.entities.len(), 2);
}

#[test]
fn seq_api_response_empty_page_has_count_zero() {
    let entities: Vec<TestEntity> = Vec::new();
    let response = SeqApiResponse::new("users".to_string(), 10, 25, entities);
    assert_eq!(response.count, 0);
    assert_eq!(response.total, 25);
    assert_eq!(response.offset, 10);
}

#[test]
fn error_payloads_carry_their_predefined_messages() {
    let e = InvalidParameterError::new("id".to_string(), "abc".to_string());
    assert_eq!(e.param, "id");
    assert_eq!(e.value, "abc");
    assert_eq!(e.error, "invalid parameter");

    let e = InvalidPayloadError::new("missing field".to_string());
    assert_eq!(e.message, "missing field");
    assert_eq!(e.error, "invalid payload");

    let e = MissingParameterError::new("id".to_string());
    assert_eq!(e.param, "id");
    assert_eq!(e.error, "missing parameter");

    let e = ServiceUnavailableError::new();
    assert_eq!(e.error, "service unavailable");

    let e = EntityNotFoundError::new("users".to_string(), 42);
    assert_eq!(e.entity, "users");
    assert_eq!(e.id, 42);
    assert_eq!(e.error, "entity not found");

    let e = InternalServerError::new("boom".to_string());
    assert_eq!(e.error, "boom");
}
