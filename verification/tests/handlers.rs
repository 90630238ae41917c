use todo_api::handlers::{
    apply_update, check_title, create_todo, delete_todo, get_todo, id_or_refusal, list_todos,
    missing_todo, new_todo, parse_id, response_of, revise_todo, row_response, update_todo,
};
use todo_api::{
    ApiError, CreateTodoRequest, DbFailure, Timestamp, Todo, TodoResponse, UpdateTodoRequest,
};

const ID: u128 = 0x550e8400_e29b_41d4_a716_446655440000;
const ID_TEXT: &str = "550e8400-e29b-41d4-a716-446655440000";

fn at(secs: i64) -> Timestamp {
    Timestamp { secs, nanos: 0 }
}

fn stored(id: u128, title: &str, created: i64) -> Todo {
    Todo {
        id,
        title: title.to_string(),
        description: Some("notes".to_string()),
        completed: false,
        created_at: at(created),
        updated_at: at(created),
    }
}

fn shown(todo: &Todo) -> TodoResponse {
    TodoResponse {
        id: todo.id,
        title: todo.title.clone(),
        description: todo.description.clone(),
        completed: todo.completed,
        created_at: todo.created_at,
        updated_at: todo.updated_at,
    }
}

fn create(title: &str, description: Option<&str>) -> CreateTodoRequest {
    CreateTodoRequest { title: title.to_string(), description: description.map(str::to_string) }
}

fn not_found_message() -> String {
    format!("Todo with id {} not found", ID_TEXT)
}

#[test]
fn blank_title_is_refused_with_bad_request() {
    let err = create_todo(&create("  ", None)).unwrap_err();
    assert_eq!(err, ApiError::BadRequest("Title cannot be empty".to_string()));
    assert_eq!(err.status_code(), 400);
    let body = err.error_response();
    assert_eq!(body.error, "BAD_REQUEST");
    assert_eq!(body.message, "Title cannot be empty");
}

#[test]
fn empty_and_whitespace_titles_are_blank() {
    for title in ["", " ", "\t\n", " \u{a0} ", "\u{3000}"] {
        assert_eq!(
            new_todo(&create(title, Some("d")), ID, at(5)),
            Err(ApiError::BadRequest("Title cannot be empty".to_string()))
        );
    }
}

#[test]
fn check_title_judges_what_trimming_left() {
    assert_eq!(check_title(""), Err(ApiError::BadRequest("Title cannot be empty".to_string())));
    assert_eq!(check_title("x"), Ok(()));
    assert_eq!(check_title(" "), Ok(()));
}

#[test]
fn new_todo_builds_the_row_to_insert() {
    let row = new_todo(&create("  buy milk ", Some("2 litres")), ID, at(1_700_000_000)).unwrap();
    assert_eq!(
        row,
        Todo {
            id: ID,
            title: "  buy milk ".to_string(),
            description: Some("2 litres".to_string()),
            completed: false,
            created_at: at(1_700_000_000),
            updated_at: at(1_700_000_000),
        }
    );
    let bare = new_todo(&create("x", None), 7, Timestamp { secs: -3, nanos: 999_999_999 }).unwrap();
    assert_eq!(bare.description, None);
    assert_eq!(bare.id, 7);
    assert_eq!(bare.created_at, Timestamp { secs: -3, nanos: 999_999_999 });
    assert_eq!(bare.updated_at, bare.created_at);
}

#[test]
fn created_item_is_fresh_and_not_completed() {
    let req = create("write tests", Some("all of them"));
    let first = create_todo(&req).unwrap();
    let second = create_todo(&req).unwrap();
    assert_ne!(first.id, second.id);
    for row in [&first, &second] {
        assert_eq!(row.title, "write tests");
        assert_eq!(row.description.as_deref(), Some("all of them"));
        assert!(!row.completed);
        assert_eq!(row.created_at, row.updated_at);
        assert!(row.created_at.secs > 1_600_000_000);
        assert_eq!((row.id >> 76) & 0xf, 4);
    }
}

#[test]
fn absent_id_is_not_found_by_get_update_and_delete() {
    let get = get_todo(Err(DbFailure::RowNotFound)).unwrap_err();
    assert_eq!(get, ApiError::NotFound("Resource not found".to_string()));
    assert_eq!(get.status_code(), 404);

    let delete = delete_todo(ID, Ok(0)).unwrap_err();
    assert_eq!(delete, ApiError::NotFound(not_found_message()));
    assert_eq!(delete.status_code(), 404);

    let req = UpdateTodoRequest { title: Some("t".to_string()), description: None, completed: None };
    let update = update_todo(ID, Ok(None), &req).unwrap_err();
    assert_eq!(update, ApiError::NotFound(not_found_message()));
}

#[test]
fn update_of_missing_id_with_completed_is_404() {
    let req = UpdateTodoRequest { title: None, description: None, completed: Some(true) };
    let err = update_todo(ID, Ok(None), &req).unwrap_err();
    assert_eq!(err.status_code(), 404);
    let body = err.error_response();
    assert_eq!(body.error, "NOT_FOUND");
    assert_eq!(body.message, not_found_message());
}

#[test]
fn repeated_delete_keeps_answering_not_found() {
    assert_eq!(delete_todo(ID, Ok(1)), Ok(()));
    for _ in 0..3 {
        assert_eq!(delete_todo(ID, Ok(0)), Err(ApiError::NotFound(not_found_message())));
    }
}

#[test]
fn delete_reports_storage_failure() {
    assert_eq!(
        delete_todo(ID, Err(DbFailure::Other("connection reset".to_string()))),
        Err(ApiError::InternalServerError("Database error: connection reset".to_string()))
    );
    assert_eq!(delete_todo(1, Ok(u64::MAX)), Ok(()));
}

#[test]
fn missing_todo_names_the_identifier() {
    assert_eq!(missing_todo("abc"), ApiError::NotFound("Todo with id abc not found".to_string()));
    assert_eq!(missing_todo(""), ApiError::NotFound("Todo with id  not found".to_string()));
}

#[test]
fn not_found_message_shows_the_id_in_hyphenated_lower_case() {
    let err = delete_todo(0xABCDEF00_0000_0000_0000_000000000001, Ok(0)).unwrap_err();
    assert_eq!(
        err.to_string(),
        "Todo with id abcdef00-0000-0000-0000-000000000001 not found"
    );
    let zero = delete_todo(0, Ok(0)).unwrap_err();
    assert_eq!(zero.to_string(), "Todo with id 00000000-0000-0000-0000-000000000000 not found");
}

#[test]
fn partial_update_leaves_unset_fields_unchanged() {
    let existing = stored(ID, "old title", 100);
    let only_completed = UpdateTodoRequest { title: None, description: None, completed: Some(true) };
    let row = apply_update(&existing, &only_completed, ID, at(200));
    assert_eq!(row.id, ID);
    assert_eq!(row.title, "old title");
    assert_eq!(row.description.as_deref(), Some("notes"));
    assert!(row.completed);
    assert_eq!(row.created_at, at(100));
    assert_eq!(row.updated_at, at(200));
    assert!(existing.updated_at.is_before(&row.updated_at));

    let only_title =
        UpdateTodoRequest { title: Some("new".to_string()), description: None, completed: None };
    let row = apply_update(&existing, &only_title, ID, at(300));
    assert_eq!(row.title, "new");
    assert_eq!(row.description.as_deref(), Some("notes"));
    assert!(!row.completed);

    let nothing = UpdateTodoRequest { title: None, description: None, completed: None };
    let row = apply_update(&existing, &nothing, ID, at(400));
    assert_eq!(row, Todo { updated_at: at(400), ..existing.clone() });
}

#[test]
fn update_replaces_every_field_that_is_set() {
    let mut existing = stored(ID, "old", 100);
    existing.description = None;
    existing.completed = true;
    let req = UpdateTodoRequest {
        title: Some("  ".to_string()),
        description: Some("d".to_string()),
        completed: Some(false),
    };
    let row = update_todo(ID, Ok(Some(existing)), &req).unwrap();
    assert_eq!(row.title, "  ");
    assert_eq!(row.description.as_deref(), Some("d"));
    assert!(!row.completed);
    assert_eq!(row.created_at, at(100));
    assert!(at(1_600_000_000).is_before(&row.updated_at));
}

#[test]
fn revise_todo_decides_by_what_the_store_answered() {
    let req = UpdateTodoRequest { title: None, description: None, completed: Some(true) };
    let row = revise_todo(ID, Ok(Some(stored(ID, "t", 1))), &req, at(2)).unwrap();
    assert_eq!(row, Todo { completed: true, updated_at: at(2), ..stored(ID, "t", 1) });
    assert_eq!(revise_todo(ID, Ok(None), &req, at(2)), Err(ApiError::NotFound(not_found_message())));
    assert_eq!(
        revise_todo(ID, Err(DbFailure::Other("boom".to_string())), &req, at(2)),
        Err(ApiError::InternalServerError("Database error: boom".to_string()))
    );
    assert_eq!(
        revise_todo(ID, Err(DbFailure::RowNotFound), &req, at(2)),
        Err(ApiError::NotFound("Resource not found".to_string()))
    );
}

#[test]
fn list_keeps_the_order_of_the_store() {
    let a = stored(1, "A", 10);
    let b = stored(2, "B", 20);
    let c = stored(3, "C", 30);
    let listed = list_todos(Ok(vec![c.clone(), b.clone(), a.clone()])).unwrap();
    assert_eq!(listed, vec![shown(&c), shown(&b), shown(&a)]);
}

#[test]
fn list_of_nothing_is_empty_and_no_error() {
    assert_eq!(list_todos(Ok(Vec::new())), Ok(Vec::new()));
    assert_eq!(
        list_todos(Err(DbFailure::Other("down".to_string()))),
        Err(ApiError::InternalServerError("Database error: down".to_string()))
    );
}

#[test]
fn created_item_reads_back_equal() {
    let row = new_todo(&create("round trip", Some("desc")), ID, at(42)).unwrap();
    let created = row_response(Ok(row.clone())).unwrap();
    let read = get_todo(Ok(row.clone())).unwrap();
    assert_eq!(created, read);
    assert_eq!(read, shown(&row));
    assert_eq!(response_of(&row), read);
    assert_eq!(TodoResponse::from(row), read);
}

#[test]
fn get_reports_storage_failure() {
    assert_eq!(
        get_todo(Err(DbFailure::Other("timeout".to_string()))),
        Err(ApiError::InternalServerError("Database error: timeout".to_string()))
    );
}

#[test]
fn malformed_id_is_refused_with_bad_request() {
    let err = parse_id("not-a-uuid").unwrap_err();
    assert_eq!(err.status_code(), 400);
    assert_eq!(err.error_response().error, "BAD_REQUEST");
    assert_eq!(err, ApiError::BadRequest("Invalid todo id".to_string()));
    assert!(parse_id("").is_err());
    assert!(parse_id("550e8400-e29b-41d4-a716-44665544000").is_err());
}

#[test]
fn well_formed_id_is_read() {
    assert_eq!(parse_id(ID_TEXT), Ok(ID));
    assert_eq!(parse_id("550E8400E29B41D4A716446655440000"), Ok(ID));
    assert_eq!(parse_id("00000000-0000-0000-0000-000000000000"), Ok(0));
    assert_eq!(parse_id("ffffffff-ffff-ffff-ffff-ffffffffffff"), Ok(u128::MAX));
}

#[test]
fn id_or_refusal_passes_the_value_on() {
    assert_eq!(id_or_refusal(Some(5)), Ok(5));
    assert_eq!(id_or_refusal(None), Err(ApiError::BadRequest("Invalid todo id".to_string())));
}

#[test]
fn timestamps_order_by_seconds_then_nanoseconds() {
    let early = Timestamp { secs: 1, nanos: 999_999_999 };
    let late = Timestamp { secs: 2, nanos: 0 };
    assert!(early.is_before(&late));
    assert!(!late.is_before(&early));
    assert!(!early.is_before(&early));
    assert!(Timestamp { secs: 2, nanos: 1 }.is_before(&Timestamp { secs: 2, nanos: 2 }));
    assert!(Timestamp { secs: -5, nanos: 7 }.is_before(&Timestamp { secs: -4, nanos: 0 }));
}
