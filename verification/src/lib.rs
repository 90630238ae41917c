//! A todo service's request handling, with the storage and the HTTP transport left to
//! the caller: each handler here is the part of one operation that decides.

pub mod config;
pub mod error;
pub mod handlers;
pub mod models;
pub mod outside;
pub mod routes;
pub mod statements;
pub mod table;

pub use error::{ApiError, DbFailure, ErrorKind, ErrorResponse};
pub use handlers::{
    create_todo, delete_todo, get_todo, list_todos, parse_id, row_response, update_todo,
};
pub use models::{CreateTodoRequest, Timestamp, Todo, TodoResponse, UpdateTodoRequest};
pub use routes::configure_routes;
