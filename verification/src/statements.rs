//! The statements that the operations send to the store, one for each round. The
//! parameters `$1`, `$2`, ... are bound by the caller in the order named here.

use vstd::prelude::*;

verus! {

/// Lists every item, newest first. No parameters.
pub const SELECT_ALL: &'static str =
    "SELECT id, title, description, completed, created_at, updated_at FROM todos ORDER BY created_at DESC";

/// Looks one item up. Parameter: the identifier.
pub const SELECT_BY_ID: &'static str =
    "SELECT id, title, description, completed, created_at, updated_at FROM todos WHERE id = $1";

/// Inserts an item and returns the inserted row. Parameters: identifier, title,
/// description, completion, moment of creation, moment of update.
pub const INSERT: &'static str =
    "INSERT INTO todos (id, title, description, completed, created_at, updated_at) VALUES ($1, $2, $3, $4, $5, $6) RETURNING id, title, description, completed, created_at, updated_at";

/// Writes an item's changeable fields and returns the written row. Parameters: title,
/// description, completion, moment of update, identifier.
pub const UPDATE_BY_ID: &'static str =
    "UPDATE todos SET title = $1, description = $2, completed = $3, updated_at = $4 WHERE id = $5 RETURNING id, title, description, completed, created_at, updated_at";

/// Deletes an item. Parameter: the identifier.
pub const DELETE_BY_ID: &'static str = "DELETE FROM todos WHERE id = $1";

} // verus!
