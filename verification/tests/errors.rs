use todo_api::routes::{Method, Operation, Route};
use todo_api::{configure_routes, ApiError, DbFailure, ErrorKind, ErrorResponse};

#[test]
fn each_kind_has_its_status_and_tag() {
    let cases = [
        (ApiError::NotFound("a".to_string()), ErrorKind::NotFound, 404, "NOT_FOUND"),
        (ApiError::BadRequest("b".to_string()), ErrorKind::BadRequest, 400, "BAD_REQUEST"),
        (
            ApiError::InternalServerError("c".to_string()),
            ErrorKind::InternalServerError,
            500,
            "INTERNAL_SERVER_ERROR",
        ),
        (ApiError::Conflict("d".to_string()), ErrorKind::Conflict, 409, "CONFLICT"),
    ];
    for (error, kind, status, tag) in cases {
        assert_eq!(error.kind(), kind);
        assert_eq!(error.status_code(), status);
        assert_eq!(kind.status_code(), status);
        assert_eq!(kind.tag_text(), tag);
        assert_eq!(error.error_response().error, tag);
    }
}

#[test]
fn error_body_holds_tag_and_message() {
    let error = ApiError::Conflict("already there".to_string());
    assert_eq!(error.to_string(), "already there");
    assert_eq!(
        error.error_response(),
        ErrorResponse { error: "CONFLICT".to_string(), message: "already there".to_string() }
    );
    assert_eq!(ApiError::NotFound(String::new()).to_string(), "");
}

#[test]
fn storage_failure_maps_to_not_found_or_internal() {
    assert_eq!(
        ApiError::from_failure(DbFailure::RowNotFound),
        ApiError::NotFound("Resource not found".to_string())
    );
    assert_eq!(
        ApiError::from_failure(DbFailure::Other("x".to_string())),
        ApiError::InternalServerError("Database error: x".to_string())
    );
    assert_eq!(
        ApiError::from_failure(DbFailure::Other(String::new())),
        ApiError::InternalServerError("Database error: ".to_string())
    );
}

#[test]
fn driver_row_not_found_is_read_as_such() {
    assert_eq!(DbFailure::read(&sqlx::Error::RowNotFound), DbFailure::RowNotFound);
    assert_eq!(
        ApiError::from(&sqlx::Error::RowNotFound),
        ApiError::NotFound("Resource not found".to_string())
    );
}

#[test]
fn other_driver_errors_keep_their_description() {
    let err = sqlx::Error::Protocol("bad frame".to_string());
    let text = err.to_string();
    assert!(text.contains("bad frame"));
    assert_eq!(DbFailure::read(&err), DbFailure::Other(text.clone()));
    let api = ApiError::from(&err);
    assert_eq!(api, ApiError::InternalServerError(format!("Database error: {}", text)));
    assert_eq!(api.status_code(), 500);

    let timed_out = ApiError::from(&sqlx::Error::PoolTimedOut);
    assert_eq!(timed_out.kind(), ErrorKind::InternalServerError);
    assert!(timed_out.to_string().starts_with("Database error: "));
}

#[test]
fn route_table_binds_each_operation_once() {
    assert_eq!(todo_api::routes::SCOPE, "/api/todos");
    assert_eq!(todo_api::routes::ITEM_PATH, "/{id}");
    assert_eq!(
        configure_routes(),
        vec![
            Route { method: Method::Get, names_item: false, operation: Operation::List },
            Route { method: Method::Post, names_item: false, operation: Operation::Create },
            Route { method: Method::Get, names_item: true, operation: Operation::Get },
            Route { method: Method::Put, names_item: true, operation: Operation::Update },
            Route { method: Method::Delete, names_item: true, operation: Operation::Delete },
        ]
    );
}

#[test]
fn list_statement_asks_for_newest_first() {
    assert!(todo_api::statements::SELECT_ALL.ends_with("FROM todos ORDER BY created_at DESC"));
    assert!(todo_api::statements::SELECT_BY_ID.ends_with("WHERE id = $1"));
    assert!(todo_api::statements::INSERT.starts_with("INSERT INTO todos"));
    assert!(todo_api::statements::UPDATE_BY_ID.contains("updated_at = $4 WHERE id = $5"));
    assert!(!todo_api::statements::UPDATE_BY_ID.contains("created_at = "));
    assert_eq!(todo_api::statements::DELETE_BY_ID, "DELETE FROM todos WHERE id = $1");
}

#[test]
fn listen_address_defaults_to_port_8080() {
    assert_eq!(todo_api::config::listen_address(None), "127.0.0.1:8080");
    assert_eq!(todo_api::config::listen_address(Some("3000".to_string())), "127.0.0.1:3000");
    assert_eq!(todo_api::config::listen_address(Some(String::new())), "127.0.0.1:");
}
