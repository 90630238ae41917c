//! The five operations on todo items. Each function here is what one operation decides:
//! it is handed what the store answered and says what is sent back, or what is to be
//! written. Reading and writing the store is the caller's part.

use crate::error::{failure_error, ApiError, ApiErrorView, DbFailure, ErrorKind};
use crate::models::{
    text_of, CreateTodoRequest, Timestamp, Todo, TodoResponse, TodoView, UpdateTodoRequest,
};
use crate::outside::{
    current_time, display_uuid, parse_uuid, random_uuid, trim, trimmed, uuid_parsed, uuid_text,
};
use vstd::prelude::*;
use vstd::string::StringExecFns;

verus! {

/// A title is blank where nothing is left of it once the whitespace around it is removed.
pub open spec fn is_blank(title: Seq<char>) -> bool {
    trimmed(title).len() == 0
}

/// The error for a blank title.
pub open spec fn blank_title_error() -> ApiErrorView {
    ApiErrorView { kind: ErrorKind::BadRequest, message: "Title cannot be empty"@ }
}

/// The error for a path segment that is no identifier.
pub open spec fn malformed_id_error() -> ApiErrorView {
    ApiErrorView { kind: ErrorKind::BadRequest, message: "Invalid todo id"@ }
}

/// The error for an identifier that no stored item has, given the identifier as text.
pub open spec fn missing_error(id_text: Seq<char>) -> ApiErrorView {
    ApiErrorView {
        kind: ErrorKind::NotFound,
        message: "Todo with id "@ + id_text + " not found"@,
    }
}

/// The row that a create request gives rise to: not completed, created and updated at
/// the same moment.
pub open spec fn created_row(req: CreateTodoRequest, id: u128, now: Timestamp) -> TodoView {
    TodoView {
        id,
        title: req.title@,
        description: text_of(req.description),
        completed: false,
        created_at: now,
        updated_at: now,
    }
}

/// The row that an update request makes of a stored one: each field that the request
/// holds replaces the stored one, each that it lacks stays; the moment of creation stays.
pub open spec fn updated_row(
    existing: TodoView,
    req: UpdateTodoRequest,
    id: u128,
    now: Timestamp,
) -> TodoView {
    TodoView {
        id,
        title: match req.title {
            Some(title) => title@,
            None => existing.title,
        },
        description: match req.description {
            Some(description) => Some(description@),
            None => existing.description,
        },
        completed: match req.completed {
            Some(completed) => completed,
            None => existing.completed,
        },
        created_at: existing.created_at,
        updated_at: now,
    }
}

/// A result with its value seen as a mathematical value.
pub open spec fn ok_view<T: View, E>(result: Result<T, E>) -> Result<T::V, E> {
    match result {
        Ok(value) => Ok(value@),
        Err(error) => Err(error),
    }
}

/// A result with its error seen as a mathematical value.
pub open spec fn err_view<T, E: View>(result: Result<T, E>) -> Result<T, E::V> {
    match result {
        Ok(value) => Ok(value),
        Err(error) => Err(error@),
    }
}

/// The items of a sequence, each seen as a mathematical value.
pub open spec fn views<T: View>(items: Seq<T>) -> Seq<T::V> {
    items.map_values(|item: T| item@)
}

/// What the store answered to a lookup, with the row seen as mathematical values.
pub open spec fn found_view(fetched: Result<Option<Todo>, DbFailure>) -> Result<
    Option<TodoView>,
    DbFailure,
> {
    match fetched {
        Ok(Some(row)) => Ok(Some(row@)),
        Ok(None) => Ok(None),
        Err(failure) => Err(failure),
    }
}

/// The answer to a statement that returns one row: the row, or the error for the
/// storage failure.
pub open spec fn row_reply(fetched: Result<TodoView, DbFailure>) -> Result<
    TodoView,
    ApiErrorView,
> {
    match fetched {
        Ok(row) => Ok(row),
        Err(failure) => Err(failure_error(failure)),
    }
}

/// What a create request leads to: the row to insert, or the refusal of a blank title.
pub open spec fn create_plan(req: CreateTodoRequest, id: u128, now: Timestamp) -> Result<
    TodoView,
    ApiErrorView,
> {
    if is_blank(req.title@) {
        Err(blank_title_error())
    } else {
        Ok(created_row(req, id, now))
    }
}

/// What an update request leads to, given what the store holds under `id`: the row to
/// write, or `NotFound` where it holds nothing.
pub open spec fn update_plan(
    id: u128,
    fetched: Result<Option<TodoView>, DbFailure>,
    req: UpdateTodoRequest,
    now: Timestamp,
) -> Result<TodoView, ApiErrorView> {
    match fetched {
        Ok(Some(existing)) => Ok(updated_row(existing, req, id, now)),
        Ok(None) => Err(missing_error(uuid_text(id))),
        Err(failure) => Err(failure_error(failure)),
    }
}

/// The answer to a delete, given the number of rows that the store removed.
pub open spec fn delete_reply(id: u128, outcome: Result<u64, DbFailure>) -> Result<
    (),
    ApiErrorView,
> {
    match outcome {
        Ok(rows_affected) => if rows_affected == 0 {
            Err(missing_error(uuid_text(id)))
        } else {
            Ok(())
        },
        Err(failure) => Err(failure_error(failure)),
    }
}

/// `Conflict` is never answered: no operation ends in it, whatever the store answers.
pub proof fn conflict_is_never_answered(
    id: u128,
    create: CreateTodoRequest,
    update: UpdateTodoRequest,
    now: Timestamp,
    row: Result<TodoView, DbFailure>,
    found: Result<Option<TodoView>, DbFailure>,
    deleted: Result<u64, DbFailure>,
)
    ensures
        row_reply(row) matches Err(error) ==> error.kind != ErrorKind::Conflict,
        create_plan(create, id, now) matches Err(error) ==> error.kind != ErrorKind::Conflict,
        update_plan(id, found, update, now) matches Err(error) ==> error.kind
            != ErrorKind::Conflict,
        delete_reply(id, deleted) matches Err(error) ==> error.kind != ErrorKind::Conflict,
{
}

/// A copy of an optional text.
fn copy_text(text: &Option<String>) -> (copy: Option<String>)
    ensures
        text_of(copy) == text_of(*text),
{
    match text {
        Some(s) => Some(s.clone()),
        None => None,
    }
}

/// The response that shows a stored row.
pub fn response_of(row: &Todo) -> (response: TodoResponse)
    ensures
        response@ == row@,
{
    TodoResponse {
        id: row.id,
        title: row.title.clone(),
        description: copy_text(&row.description),
        completed: row.completed,
        created_at: row.created_at,
        updated_at: row.updated_at,
    }
}

/// Answers a statement that returns one row: the row as a response, or the error for
/// the storage failure. A write that met no row, because the item was deleted in
/// between, comes back as a failure to find a row and is answered with `NotFound`.
pub fn row_response(fetched: Result<Todo, DbFailure>) -> (reply: Result<TodoResponse, ApiError>)
    ensures
        err_view(ok_view(reply)) == row_reply(ok_view(fetched)),
{
    match fetched {
        Ok(row) => Ok(TodoResponse::from(row)),
        Err(failure) => Err(ApiError::from_failure(failure)),
    }
}

/// Lists all items: every row that the store returned, in the store's order.
pub fn list_todos(fetched: Result<Vec<Todo>, DbFailure>) -> (reply: Result<
    Vec<TodoResponse>,
    ApiError,
>)
    ensures
        match fetched {
            Ok(rows) => reply matches Ok(responses) && views(responses@) == views(rows@),
            Err(failure) => reply matches Err(error) && error@ == failure_error(failure),
        },
{
    match fetched {
        Ok(rows) => {
            let mut responses: Vec<TodoResponse> = Vec::new();
            let mut i: usize = 0;
            while i < rows.len()
                invariant
                    i <= rows.len(),
                    responses.len() == i,
                    forall|k: int| 0 <= k < i ==> (#[trigger] responses[k])@ == rows[k]@,
                decreases rows.len() - i,
            {
                responses.push(response_of(&rows[i]));
                i += 1;
            }
            assert(views(responses@) =~= views(rows@));
            Ok(responses)
        },
        Err(failure) => Err(ApiError::from_failure(failure)),
    }
}

/// Gets one item: the row that the store found, or `NotFound` where it found none.
pub fn get_todo(fetched: Result<Todo, DbFailure>) -> (reply: Result<TodoResponse, ApiError>)
    ensures
        err_view(ok_view(reply)) == row_reply(ok_view(fetched)),
{
    row_response(fetched)
}

/// Judges a title by what trimming left of it: an error where nothing is left.
pub fn check_title(trimmed_title: &str) -> (verdict: Result<(), ApiError>)
    ensures
        if trimmed_title@.len() == 0 {
            verdict matches Err(error) && error@ == blank_title_error()
        } else {
            verdict is Ok
        },
{
    if trimmed_title.is_empty() {
        Err(ApiError::BadRequest(String::from_str("Title cannot be empty")))
    } else {
        Ok(())
    }
}

/// The row to insert for a create request, with the given identifier and moment; a
/// blank title, the empty one among them, is refused and gives no row.
pub fn new_todo(req: &CreateTodoRequest, id: u128, now: Timestamp) -> (row: Result<Todo, ApiError>)
    ensures
        err_view(ok_view(row)) == create_plan(*req, id, now),
        req.title@.len() == 0 ==> (row matches Err(error) && error@ == blank_title_error()),
{
    match check_title(trim(req.title.as_str())) {
        Err(error) => Err(error),
        Ok(()) => Ok(
            Todo {
                id,
                title: req.title.clone(),
                description: copy_text(&req.description),
                completed: false,
                created_at: now,
                updated_at: now,
            },
        ),
    }
}

/// Creates an item: the row to insert, under a fresh random identifier and the current
/// time; a blank title, the empty one among them, is refused and gives no row.
pub fn create_todo(req: &CreateTodoRequest) -> (row: Result<Todo, ApiError>)
    ensures
        match row {
            Ok(todo) => err_view(ok_view(row)) == create_plan(*req, todo.id, todo.created_at),
            Err(_) => forall|id: u128, now: Timestamp|
                err_view(ok_view(row)) == #[trigger] create_plan(*req, id, now),
        },
        req.title@.len() == 0 ==> (row matches Err(error) && error@ == blank_title_error()),
{
    let id = random_uuid();
    let now = current_time();
    new_todo(req, id, now)
}

/// The `NotFound` error that names an identifier, given the identifier as text.
pub fn missing_todo(id_text: &str) -> (error: ApiError)
    ensures
        error@ == missing_error(id_text@),
{
    ApiError::NotFound(String::from_str("Todo with id ").concat(id_text).concat(" not found"))
}

/// The stored row with the fields that the request holds put in, keyed by `id` and
/// updated at `now`.
pub fn apply_update(existing: &Todo, req: &UpdateTodoRequest, id: u128, now: Timestamp) -> (row:
    Todo)
    ensures
        row@ == updated_row(existing@, *req, id, now),
{
    let title = match &req.title {
        Some(title) => title.clone(),
        None => existing.title.clone(),
    };
    let description = match &req.description {
        Some(description) => Some(description.clone()),
        None => copy_text(&existing.description),
    };
    let completed = match req.completed {
        Some(completed) => completed,
        None => existing.completed,
    };
    Todo { id, title, description, completed, created_at: existing.created_at, updated_at: now }
}

/// The row to write for an update request at the moment `now`: `NotFound` where the
/// store holds no item under `id`, and then nothing is to be written.
pub fn revise_todo(
    id: u128,
    fetched: Result<Option<Todo>, DbFailure>,
    req: &UpdateTodoRequest,
    now: Timestamp,
) -> (row: Result<Todo, ApiError>)
    ensures
        err_view(ok_view(row)) == update_plan(id, found_view(fetched), *req, now),
{
    match fetched {
        Ok(Some(existing)) => Ok(apply_update(&existing, req, id, now)),
        Ok(None) => Err(missing_todo(display_uuid(id).as_str())),
        Err(failure) => Err(ApiError::from_failure(failure)),
    }
}

/// Updates an item: the row to write, updated at the current time; `NotFound` where the
/// store holds no item under `id`, and then nothing is to be written.
pub fn update_todo(
    id: u128,
    fetched: Result<Option<Todo>, DbFailure>,
    req: &UpdateTodoRequest,
) -> (row: Result<Todo, ApiError>)
    ensures
        match row {
            Ok(todo) => err_view(ok_view(row)) == update_plan(
                id,
                found_view(fetched),
                *req,
                todo.updated_at,
            ),
            Err(_) => forall|now: Timestamp|
                err_view(ok_view(row)) == #[trigger] update_plan(id, found_view(fetched), *req, now),
        },
{
    let now = current_time();
    revise_todo(id, fetched, req, now)
}

/// Deletes an item: success where the store removed a row, `NotFound` where it removed
/// none.
pub fn delete_todo(id: u128, outcome: Result<u64, DbFailure>) -> (reply: Result<(), ApiError>)
    ensures
        err_view(reply) == delete_reply(id, outcome),
{
    match outcome {
        Ok(rows_affected) => {
            if rows_affected == 0 {
                Err(missing_todo(display_uuid(id).as_str()))
            } else {
                Ok(())
            }
        },
        Err(failure) => Err(ApiError::from_failure(failure)),
    }
}

/// Judges a path segment by what parsing made of it: the identifier, or `BadRequest`.
pub fn id_or_refusal(parsed: Option<u128>) -> (id: Result<u128, ApiError>)
    ensures
        match parsed {
            Some(value) => id matches Ok(found) && found == value,
            None => id matches Err(error) && error@ == malformed_id_error(),
        },
{
    match parsed {
        Some(value) => Ok(value),
        None => Err(ApiError::BadRequest(String::from_str("Invalid todo id"))),
    }
}

/// Reads the identifier in a path segment; a segment that is no identifier is refused
/// with `BadRequest`, before anything is asked of the store.
pub fn parse_id(segment: &str) -> (id: Result<u128, ApiError>)
    ensures
        match uuid_parsed(segment@) {
            Some(value) => id matches Ok(found) && found == value,
            None => id matches Err(error) && error@ == malformed_id_error(),
        },
{
    id_or_refusal(parse_uuid(segment))
}

} // verus!
