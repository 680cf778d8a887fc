use todo_api::handlers::{
    all_response, all_todo, create_response, create_todo, delete_response, delete_todo, fail,
    find_todo, parse_rejection, record_response, root, update_todo, validation_rejection, Failure,
    StatusCode, ValidatedJson,
};
use todo_api::repositories::todo::{
    CreateTodo, Todo, TodoRepository, TodoRepositoryForMemory, UpdateTodo,
};
use todo_api::repositories::RepositoryError;
use todo_api::validation::{ValidationErrors, Violation};

/// Decodes the body of a request to create a TODO.
fn decode_create(body: &str) -> Result<CreateTodo, String> {
    let value: serde_json::Value = serde_json::from_str(body).map_err(|e| e.to_string())?;
    match value.get("text").and_then(|text| text.as_str()) {
        Some(text) => Ok(CreateTodo::new(text.to_string())),
        None => Err("missing field `text`".to_string()),
    }
}

/// Decodes the body of a request to change a TODO.
fn decode_update(body: &str) -> Result<UpdateTodo, String> {
    let value: serde_json::Value = serde_json::from_str(body).map_err(|e| e.to_string())?;
    Ok(UpdateTodo {
        text: value.get("text").and_then(|text| text.as_str()).map(|text| text.to_string()),
        completed: value.get("completed").and_then(|completed| completed.as_bool()),
    })
}

fn post_todos(
    repository: &mut TodoRepositoryForMemory,
    body: &str,
) -> Result<(StatusCode, Todo), (StatusCode, String)> {
    let payload = ValidatedJson::from_request(decode_create(body))?;
    match create_todo(payload, repository) {
        Ok(created) => Ok(created),
        Err(failure) => panic!("unhandled: {:?}", failure),
    }
}

fn patch_todos(
    repository: &mut TodoRepositoryForMemory,
    id: i32,
    body: &str,
) -> Result<(StatusCode, Todo), StatusCode> {
    let payload = match ValidatedJson::from_request(decode_update(body)) {
        Ok(payload) => payload,
        Err((status, _)) => return Err(status),
    };
    match update_todo(id, payload, repository) {
        Ok(updated) => Ok(updated),
        Err(Failure::Status(status)) => Err(status),
        Err(failure) => panic!("unhandled: {:?}", failure),
    }
}

fn status_of<T>(response: Result<T, Failure>) -> StatusCode {
    match response {
        Err(Failure::Status(status)) => status,
        Err(failure) => panic!("unhandled: {:?}", failure),
        Ok(_) => panic!("the handler has a success to report"),
    }
}

const HUNDRED_AND_ONE: &str = "aaaaaaaaaaaaaaaaaaaaaaaaaaaaaaaaaaaaaaaaaaaaaaaaaaaaaaaaaaaaaaaaaaaaaaaaaaaaaaaaaaaaaaaaaaaaaaaaaaaaa";

#[test]
fn should_return_hello_world() {
    assert_eq!(root(), "Hello! axum!!");
}

#[test]
fn should_created_todo() {
    let expected = Todo::new(1, "should_return_created_todo".to_string());

    let mut repository = TodoRepositoryForMemory::new();
    let (status, todo) =
        post_todos(&mut repository, r#"{ "text": "should_return_created_todo" }"#).unwrap();
    assert_eq!(expected, todo);
    assert_eq!(status, StatusCode::Created);
}

#[test]
fn should_fail_created_todo_by_json_parse_error() {
    let mut repository = TodoRepositoryForMemory::new();
    let (status, message) =
        post_todos(&mut repository, r#"{ "text" :"should_return_created_todo" "#).unwrap_err();
    assert_eq!(status, StatusCode::BadRequest);
    assert!(message.starts_with("Json parse error: ["));
    assert!(message.ends_with("]"));
    assert_eq!(repository.len(), 0);
}

#[test]
fn should_fail_created_todo_by_text_is_empty() {
    let mut repository = TodoRepositoryForMemory::new();
    let (status, message) = post_todos(&mut repository, r#"{ "text" : "" }"#).unwrap_err();
    assert_eq!(status, StatusCode::BadRequest);
    assert_eq!(message, "Validation error: [text: Can not be empty]");
    assert_eq!(repository.len(), 0);
}

#[test]
fn should_fail_created_todo_by_text_is_too_long() {
    assert_eq!(HUNDRED_AND_ONE.len(), 101);
    let mut repository = TodoRepositoryForMemory::new();
    let body = format!(r#"{{ "text" : "{}" }}"#, HUNDRED_AND_ONE);
    let (status, message) = post_todos(&mut repository, &body).unwrap_err();
    assert_eq!(status, StatusCode::BadRequest);
    assert_eq!(message, "Validation error: [text: Over text length]");
    assert_eq!(repository.len(), 0);
}

#[test]
fn should_find_todo() {
    let expected = Todo::new(1, "should_find_todo".to_string());

    let mut repository = TodoRepositoryForMemory::new();
    repository.create(CreateTodo::new("should_find_todo".to_string())).unwrap();
    let (status, todo) = find_todo(1, &repository).unwrap();
    assert_eq!(expected, todo);
    assert_eq!(status, StatusCode::OK);
}

#[test]
fn should_get_all_todos() {
    let expected = Todo::new(1, "should_get_all_todos".to_string());

    let mut repository = TodoRepositoryForMemory::new();
    repository.create(CreateTodo::new("should_get_all_todos".to_string())).unwrap();
    let (status, todo) = all_todo(&repository).unwrap();
    assert_eq!(vec![expected], todo);
    assert_eq!(status, StatusCode::OK);
}

#[test]
fn should_update_todo() {
    let expected = Todo::new(1, "should_update_todo".to_string());

    let mut repository = TodoRepositoryForMemory::new();
    repository.create(CreateTodo::new("before_update_todo".to_string())).unwrap();
    let (status, todo) = patch_todos(
        &mut repository,
        1,
        r#"{
                "id": 1,
                "text": "should_update_todo",
                "completed": false
            }"#,
    )
    .unwrap();
    assert_eq!(expected, todo);
    assert_eq!(status, StatusCode::OK);
}

#[test]
fn should_fail_update_todo_by_text_is_empty() {
    let mut repository = TodoRepositoryForMemory::new();
    repository.create(CreateTodo::new("before_update_todo".to_string())).unwrap();
    let status = patch_todos(
        &mut repository,
        1,
        r#"{
                "id": 1,
                "text": "",
                "completed": false
            }"#,
    )
    .unwrap_err();
    assert_eq!(status, StatusCode::BadRequest);
    let kept = Todo::new(1, "before_update_todo".to_string());
    assert_eq!(repository.find(1).unwrap(), kept);
}

#[test]
fn should_fail_update_todo_by_text_is_too_long() {
    let mut repository = TodoRepositoryForMemory::new();
    repository.create(CreateTodo::new("before_update_todo".to_string())).unwrap();
    let body = format!(
        r#"{{
                "id": 1,
                "text": "{}",
                "completed": false
            }}"#,
        HUNDRED_AND_ONE
    );
    let status = patch_todos(&mut repository, 1, &body).unwrap_err();
    assert_eq!(status, StatusCode::BadRequest);
    let kept = Todo::new(1, "before_update_todo".to_string());
    assert_eq!(repository.find(1).unwrap(), kept);
}

#[test]
fn should_delete_todo() {
    let mut repository = TodoRepositoryForMemory::new();
    repository.create(CreateTodo::new("should_delete_todo".to_string())).unwrap();
    let status = delete_todo(1, &mut repository).unwrap();
    assert_eq!(status, StatusCode::NoContent);
    assert_eq!(repository.len(), 0);
}

#[test]
fn post_buy_milk_is_created_with_id_one() {
    let mut repository = TodoRepositoryForMemory::new();
    let (status, todo) = post_todos(&mut repository, r#"{"text":"buy milk"}"#).unwrap();
    assert_eq!(status.as_u16(), 201);
    assert_eq!(todo.id, 1);
    assert_eq!(todo.text, "buy milk");
    assert!(!todo.completed);
}

#[test]
fn patch_with_empty_text_is_a_bad_request() {
    let mut repository = TodoRepositoryForMemory::new();
    repository.create(CreateTodo::new("buy milk".to_string())).unwrap();
    let status =
        patch_todos(&mut repository, 1, r#"{"text":"","completed":false}"#).unwrap_err();
    assert_eq!(status.as_u16(), 400);
}

#[test]
fn delete_on_an_empty_store_is_not_found() {
    let mut repository = TodoRepositoryForMemory::new();
    let status = status_of(delete_todo(1, &mut repository));
    assert_eq!(status.as_u16(), 404);
}

#[test]
fn find_of_an_absent_id_answers_not_found() {
    let mut repository = TodoRepositoryForMemory::new();
    repository.create(CreateTodo::new("one".to_string())).unwrap();
    assert_eq!(status_of(find_todo(2, &repository)), StatusCode::NotFound);
    assert_eq!(status_of(find_todo(0, &repository)), StatusCode::NotFound);
}

#[test]
fn update_of_an_absent_id_is_not_found() {
    let mut repository = TodoRepositoryForMemory::new();
    let status =
        patch_todos(&mut repository, 1, r#"{"text":"x","completed":true}"#).unwrap_err();
    assert_eq!(status, StatusCode::NotFound);
    assert_eq!(repository.len(), 0);
}

#[test]
fn update_with_completed_only_keeps_the_text() {
    let mut repository = TodoRepositoryForMemory::new();
    repository.create(CreateTodo::new("buy milk".to_string())).unwrap();
    let (status, todo) = patch_todos(&mut repository, 1, r#"{"completed":true}"#).unwrap();
    assert_eq!(status, StatusCode::OK);
    assert_eq!(todo, Todo { id: 1, text: "buy milk".to_string(), completed: true });
}

#[test]
fn all_on_an_empty_store_is_ok_and_empty() {
    let repository = TodoRepositoryForMemory::new();
    let (status, todos) = all_todo(&repository).unwrap();
    assert_eq!(status, StatusCode::OK);
    assert!(todos.is_empty());
}

#[test]
fn status_numbers() {
    assert_eq!(StatusCode::OK.as_u16(), 200);
    assert_eq!(StatusCode::Created.as_u16(), 201);
    assert_eq!(StatusCode::NoContent.as_u16(), 204);
    assert_eq!(StatusCode::BadRequest.as_u16(), 400);
    assert_eq!(StatusCode::NotFound.as_u16(), 404);
}

#[test]
fn parse_rejection_wraps_the_account() {
    let (status, message) = parse_rejection("EOF while parsing an object");
    assert_eq!(status, StatusCode::BadRequest);
    assert_eq!(message, "Json parse error: [EOF while parsing an object]");
}

#[test]
fn validation_rejection_puts_the_report_on_one_line() {
    let (status, message) = validation_rejection("text: Can not be empty\nname: Too long");
    assert_eq!(status, StatusCode::BadRequest);
    assert_eq!(message, "Validation error: [text: Can not be empty, name: Too long]");
    let (_, plain) = validation_rejection("text: Over text length");
    assert_eq!(plain, "Validation error: [text: Over text length]");
    let (_, ends) = validation_rejection("\n\n");
    assert_eq!(ends, "Validation error: [, , ]");
}

#[test]
fn validated_payload_is_handed_on_unchanged() {
    let payload = ValidatedJson::from_request(Ok(CreateTodo::new("a".to_string()))).unwrap();
    assert_eq!(payload.into_inner(), CreateTodo::new("a".to_string()));
    let update = UpdateTodo { text: None, completed: None };
    let payload = ValidatedJson::from_request(Ok(update.clone())).unwrap();
    assert_eq!(payload.into_inner(), update);
}

#[test]
fn update_without_text_passes_the_rules() {
    let decoded = decode_update(r#"{"completed":true}"#);
    assert!(ValidatedJson::from_request(decoded).is_ok());
}

#[test]
fn not_found_becomes_a_status_and_other_errors_are_handed_on() {
    assert!(matches!(fail(RepositoryError::NotFound(3)), Failure::Status(StatusCode::NotFound)));
    match fail(RepositoryError::Unexpected("connection reset".to_string())) {
        Failure::Unhandled(RepositoryError::Unexpected(message)) => {
            assert_eq!(message, "connection reset")
        }
        other => panic!("{:?}", other),
    }
    assert!(matches!(
        fail(RepositoryError::Duplicate(4)),
        Failure::Unhandled(RepositoryError::Duplicate(4))
    ));
}

#[test]
fn responses_from_repository_answers() {
    let todo = Todo::new(5, "five".to_string());
    match create_response(Ok(todo.clone())) {
        Ok((status, record)) => {
            assert_eq!(status, StatusCode::Created);
            assert_eq!(record, todo);
        }
        Err(failure) => panic!("{:?}", failure),
    }
    match record_response(Ok(todo.clone())) {
        Ok((status, record)) => {
            assert_eq!(status, StatusCode::OK);
            assert_eq!(record, todo);
        }
        Err(failure) => panic!("{:?}", failure),
    }
    assert_eq!(status_of(record_response(Err(RepositoryError::NotFound(5)))), StatusCode::NotFound);
    match all_response(Ok(vec![todo.clone()])) {
        Ok((status, records)) => {
            assert_eq!(status, StatusCode::OK);
            assert_eq!(records, vec![todo]);
        }
        Err(failure) => panic!("{:?}", failure),
    }
    assert!(matches!(delete_response(Ok(())), Ok(StatusCode::NoContent)));
    assert_eq!(status_of(delete_response(Err(RepositoryError::NotFound(5)))), StatusCode::NotFound);
    assert!(matches!(
        create_response(Err(RepositoryError::Unexpected("down".to_string()))),
        Err(Failure::Unhandled(RepositoryError::Unexpected(_)))
    ));
}

#[test]
fn broken_rules_of_two_fields_are_reported_on_one_line() {
    let mut errors = ValidationErrors::new();
    errors.add(Violation { field: "name", code: "length", message: "Name is missing" });
    errors.add(Violation { field: "nick", code: "length", message: "Nick is too long" });
    let (status, message) = validation_rejection(&errors.to_text());
    assert_eq!(status, StatusCode::BadRequest);
    assert!(
        message == "Validation error: [name: Name is missing, nick: Nick is too long]"
            || message == "Validation error: [nick: Nick is too long, name: Name is missing]"
    );
}
