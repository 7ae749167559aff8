//! Tests of the in-memory store, the handler functions run against it,
//! UUID validation and the decimal renderer.

use qa_service::decimal::decimal_string;
use qa_service::handlers_inner::{create_answer, delete_answer, delete_question, read_answers};
use qa_service::memory_store::InMemoryStore;
use qa_service::models::{Answer, AnswerId, DBError, HandlerError, Question, QuestionId};
use qa_service::uuids::validate_uuid;

const UNKNOWN_UUID: &str = "550e8400-e29b-41d4-a716-446655440000";

fn sample_question() -> Question {
    Question {
        title: "test title".to_owned(),
        description: "test description".to_owned(),
    }
}

#[test]
fn created_question_is_listed_with_its_fields() {
    let mut store = InMemoryStore::new();
    let created = store
        .create_question_record(sample_question())
        .expect("create should succeed");
    assert_eq!(created.title, "test title");
    assert_eq!(created.description, "test description");
    assert!(validate_uuid(&created.question_uuid).is_ok());
    assert!(!created.created_at.is_empty());
    let listed = store.get_questions_records();
    assert_eq!(listed, vec![created]);
}

#[test]
fn created_questions_get_distinct_uuids() {
    let mut store = InMemoryStore::new();
    let first = store.create_question_record(sample_question()).unwrap();
    let second = store.create_question_record(sample_question()).unwrap();
    assert_ne!(first.question_uuid, second.question_uuid);
    assert_eq!(store.get_questions_records().len(), 2);
}

#[test]
fn store_timestamps_follow_the_tick() {
    let mut store = InMemoryStore::new();
    let first = store.create_question_record(sample_question()).unwrap();
    let second = store.create_question_record(sample_question()).unwrap();
    assert_eq!(first.created_at, "0");
    assert_eq!(second.created_at, "1");
}

#[test]
fn create_answer_with_malformed_uuid_is_bad_request() {
    let mut store = InMemoryStore::new();
    let answer = Answer {
        question_uuid: "not-a-uuid".to_owned(),
        content: "x".to_owned(),
    };
    let result = create_answer(answer, &mut store);
    assert!(matches!(result, Err(HandlerError::BadRequest(_))));
}

#[test]
fn create_answer_with_unknown_uuid_is_bad_request() {
    let mut store = InMemoryStore::new();
    store.create_question_record(sample_question()).unwrap();
    let answer = Answer {
        question_uuid: UNKNOWN_UUID.to_owned(),
        content: "x".to_owned(),
    };
    let direct = store.create_answer_record(Answer {
        question_uuid: UNKNOWN_UUID.to_owned(),
        content: "x".to_owned(),
    });
    assert!(matches!(direct, Err(DBError::InvalidUUID(_))));
    let result = create_answer(answer, &mut store);
    match result {
        Err(HandlerError::BadRequest(message)) => {
            assert_eq!(
                message,
                "foreign key violation: question_uuid references no question"
            );
        }
        other => panic!("expected BadRequest, got {:?}", other),
    }
}

#[test]
fn create_answer_for_existing_question_succeeds() {
    let mut store = InMemoryStore::new();
    let question = store.create_question_record(sample_question()).unwrap();
    let answer = Answer {
        question_uuid: question.question_uuid.clone(),
        content: "test content".to_owned(),
    };
    let created = store.create_answer_record(answer).expect("create should succeed");
    assert_eq!(created.question_uuid, question.question_uuid);
    assert_eq!(created.content, "test content");
    assert!(validate_uuid(&created.answer_uuid).is_ok());
    assert_ne!(created.answer_uuid, question.question_uuid);
    let listed = store
        .get_answers_records(&question.question_uuid)
        .expect("get should succeed");
    assert_eq!(listed, vec![created]);
}

#[test]
fn get_answers_with_no_answers_is_an_empty_list() {
    let mut store = InMemoryStore::new();
    let question = store.create_question_record(sample_question()).unwrap();
    let listed = store
        .get_answers_records(&question.question_uuid)
        .expect("get should succeed");
    assert!(listed.is_empty());
    let through_handler = read_answers(
        QuestionId { question_uuid: question.question_uuid },
        &mut store,
    );
    assert_eq!(through_handler.unwrap(), vec![]);
}

#[test]
fn get_answers_with_malformed_uuid_is_rejected() {
    let store = InMemoryStore::new();
    let result = store.get_answers_records(&"oops".to_owned());
    assert!(matches!(result, Err(DBError::InvalidUUID(_))));
}

#[test]
fn delete_of_missing_question_succeeds_silently() {
    let mut store = InMemoryStore::new();
    store.create_question_record(sample_question()).unwrap();
    let result = store.delete_question_record(&UNKNOWN_UUID.to_owned());
    assert_eq!(result, Ok(()));
    assert_eq!(store.get_questions_records().len(), 1);
}

#[test]
fn delete_of_missing_answer_succeeds_silently() {
    let mut store = InMemoryStore::new();
    let result = store.delete_answer_record(&UNKNOWN_UUID.to_owned());
    assert_eq!(result, Ok(()));
}

#[test]
fn delete_question_removes_it_and_is_idempotent() {
    let mut store = InMemoryStore::new();
    let question = store.create_question_record(sample_question()).unwrap();
    let uuid = question.question_uuid.clone();
    assert_eq!(store.delete_question_record(&uuid), Ok(()));
    assert!(store.get_questions_records().is_empty());
    assert_eq!(store.delete_question_record(&uuid), Ok(()));
}

#[test]
fn delete_answer_removes_it_and_is_idempotent() {
    let mut store = InMemoryStore::new();
    let question = store.create_question_record(sample_question()).unwrap();
    let created = store
        .create_answer_record(Answer {
            question_uuid: question.question_uuid.clone(),
            content: "x".to_owned(),
        })
        .unwrap();
    assert_eq!(store.delete_answer_record(&created.answer_uuid), Ok(()));
    assert!(store
        .get_answers_records(&question.question_uuid)
        .unwrap()
        .is_empty());
    assert_eq!(store.delete_answer_record(&created.answer_uuid), Ok(()));
}

#[test]
fn delete_question_with_malformed_uuid_maps_to_internal_error() {
    let mut store = InMemoryStore::new();
    let direct = store.delete_question_record(&"oops".to_owned());
    assert!(matches!(direct, Err(DBError::InvalidUUID(_))));
    let through_handler = delete_question(
        QuestionId { question_uuid: "oops".to_owned() },
        &mut store,
    );
    assert_eq!(
        through_handler,
        Err(HandlerError::InternalError(
            "Something went wrong! Please try again.".to_owned()
        ))
    );
}

#[test]
fn delete_answer_with_malformed_uuid_maps_to_internal_error() {
    let mut store = InMemoryStore::new();
    let through_handler = delete_answer(
        AnswerId { answer_uuid: "oops".to_owned() },
        &mut store,
    );
    assert_eq!(
        through_handler,
        Err(HandlerError::InternalError(
            "Something went wrong! Please try again.".to_owned()
        ))
    );
}

#[test]
fn delete_of_referenced_question_is_a_store_failure() {
    let mut store = InMemoryStore::new();
    let question = store.create_question_record(sample_question()).unwrap();
    store
        .create_answer_record(Answer {
            question_uuid: question.question_uuid.clone(),
            content: "x".to_owned(),
        })
        .unwrap();
    let direct = store.delete_question_record(&question.question_uuid);
    assert!(matches!(direct, Err(DBError::Other(_))));
    assert_eq!(store.get_questions_records().len(), 1);
}

#[test]
fn validate_uuid_accepts_and_rejects() {
    assert!(validate_uuid(UNKNOWN_UUID).is_ok());
    assert!(matches!(
        validate_uuid("not-a-uuid"),
        Err(DBError::InvalidUUID(_))
    ));
    assert!(validate_uuid("").is_err());
}

#[test]
fn decimal_string_renders_digits() {
    assert_eq!(decimal_string(0), "0");
    assert_eq!(decimal_string(7), "7");
    assert_eq!(decimal_string(90127), "90127");
    assert_eq!(decimal_string(u64::MAX), "18446744073709551615");
}

#[test]
fn default_internal_error_has_the_fixed_message() {
    assert_eq!(
        HandlerError::default_internal_error(),
        HandlerError::InternalError("Something went wrong! Please try again.".to_owned())
    );
}

#[test]
fn handler_errors_map_to_fixed_statuses() {
    let bad = HandlerError::BadRequest("bad uuid".to_owned());
    assert_eq!(bad.http_status_and_body(), (400, "bad uuid".to_owned()));
    let internal = HandlerError::default_internal_error();
    assert_eq!(
        internal.http_status_and_body(),
        (500, "Something went wrong! Please try again.".to_owned())
    );
}
