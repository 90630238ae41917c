//! The table of todo items as the handlers take it to be, and what holds of the
//! handlers' decisions when the store behaves as this table does. The store itself is
//! outside this library: what is proved here is proved of the decisions.

use crate::error::{ApiErrorView, DbFailure, ErrorKind};
use crate::handlers::{
    create_plan, delete_reply, is_blank, missing_error, row_reply, update_plan,
};
use crate::models::{CreateTodoRequest, Timestamp, TodoView, UpdateTodoRequest};
use crate::outside::uuid_text;
use vstd::prelude::*;

verus! {

/// The stored rows, each under its identifier.
pub ghost struct Table {
    pub rows: Map<u128, TodoView>,
}

impl Table {
    /// The table without rows.
    pub open spec fn empty() -> Table {
        Table { rows: Map::empty() }
    }

    /// Every row stands under its own identifier.
    pub open spec fn well_formed(self) -> bool {
        forall|id: u128| self.rows.contains_key(id) ==> (#[trigger] self.rows[id]).id == id
    }

    /// No row was updated before it was created.
    pub open spec fn in_order(self) -> bool {
        forall|id: u128|
            self.rows.contains_key(id) ==> (#[trigger] self.rows[id]).created_at.not_after(
                self.rows[id].updated_at,
            )
    }

    /// The table holds a row under `id`.
    pub open spec fn holds(self, id: u128) -> bool {
        self.rows.contains_key(id)
    }

    /// What a lookup by identifier finds.
    pub open spec fn find(self, id: u128) -> Option<TodoView> {
        if self.holds(id) {
            Some(self.rows[id])
        } else {
            None
        }
    }

    /// What a lookup that asks for exactly one row answers.
    pub open spec fn find_one(self, id: u128) -> Result<TodoView, DbFailure> {
        if self.holds(id) {
            Ok(self.rows[id])
        } else {
            Err(DbFailure::RowNotFound)
        }
    }

    /// The table after `row` was inserted.
    pub open spec fn insert(self, row: TodoView) -> Table {
        Table { rows: self.rows.insert(row.id, row) }
    }

    /// The table after an update wrote `row`: the row under that identifier takes its
    /// title, description, completion and moment of update; where there is none, nothing
    /// changes.
    pub open spec fn write(self, row: TodoView) -> Table {
        if self.holds(row.id) {
            Table {
                rows: self.rows.insert(
                    row.id,
                    TodoView { created_at: self.rows[row.id].created_at, ..row },
                ),
            }
        } else {
            self
        }
    }

    /// The table after the row under `id` was deleted.
    pub open spec fn remove(self, id: u128) -> Table {
        Table { rows: self.rows.remove(id) }
    }

    /// The number of rows that deleting `id` removes.
    pub open spec fn removed(self, id: u128) -> u64 {
        if self.holds(id) {
            1
        } else {
            0
        }
    }

    /// `listing` is the table listed newest first: each row once, none created before
    /// one that follows it.
    pub open spec fn lists(self, listing: Seq<TodoView>) -> bool {
        &&& forall|i: int|
            0 <= i < listing.len() ==> self.find((#[trigger] listing[i]).id) == Some(listing[i])
        &&& forall|id: u128|
            self.holds(id) ==> exists|i: int|
                0 <= i < listing.len() && (#[trigger] listing[i]).id == id
        &&& forall|i: int, j: int|
            0 <= i < j < listing.len() ==> (#[trigger] listing[i]).id != (#[trigger] listing[j]).id
        &&& forall|i: int, j: int|
            0 <= i < j < listing.len() ==> !(#[trigger] listing[i]).created_at.before(
                (#[trigger] listing[j]).created_at,
            )
    }
}

/// A created item is new: for a title that is not blank and an identifier that the
/// table does not hold yet, the row to insert is not completed, was created and updated
/// at the same moment, has a title that is not blank, and shares its identifier with no
/// row created before; the table with it is well formed and in order.
pub proof fn created_item_is_new(table: Table, req: CreateTodoRequest, id: u128, now: Timestamp)
    requires
        table.well_formed(),
        table.in_order(),
        !is_blank(req.title@),
        !table.holds(id),
    ensures
        create_plan(req, id, now) matches Ok(row) && {
            &&& row.id == id
            &&& row.title == req.title@
            &&& !is_blank(row.title)
            &&& !row.completed
            &&& row.created_at == row.updated_at
            &&& forall|other: u128| table.holds(other) ==> (#[trigger] table.rows[other]).id != row.id
            &&& table.insert(row).well_formed()
            &&& table.insert(row).in_order()
        },
{
}

/// A blank title creates nothing: there is no row to insert.
pub proof fn blank_title_creates_nothing(req: CreateTodoRequest, id: u128, now: Timestamp)
    requires
        is_blank(req.title@),
    ensures
        create_plan(req, id, now) == Err::<TodoView, ApiErrorView>(
            ApiErrorView { kind: ErrorKind::BadRequest, message: "Title cannot be empty"@ },
        ),
{
}

/// Of an identifier that the table does not hold, get and delete answer `NotFound`, and
/// update answers `NotFound` with no row to write; the delete leaves the table as it was.
pub proof fn absent_id_is_not_found(table: Table, id: u128, req: UpdateTodoRequest, now: Timestamp)
    requires
        !table.holds(id),
    ensures
        row_reply(table.find_one(id)) matches Err(error) && error.kind == ErrorKind::NotFound,
        delete_reply(id, Ok(table.removed(id))) == Err::<(), ApiErrorView>(
            missing_error(uuid_text(id)),
        ),
        missing_error(uuid_text(id)).kind == ErrorKind::NotFound,
        update_plan(id, Ok(table.find(id)), req, now) == Err::<TodoView, ApiErrorView>(
            missing_error(uuid_text(id)),
        ),
        table.remove(id) == table,
{
    assert(table.rows.remove(id) =~= table.rows);
}

/// Deleting is not repeated with success: once an identifier was deleted, every further
/// delete of it answers `NotFound` and leaves the table as it was.
pub proof fn deleted_id_stays_not_found(table: Table, id: u128)
    ensures
        !table.remove(id).holds(id),
        delete_reply(id, Ok(table.remove(id).removed(id))) matches Err(error) && error.kind
            == ErrorKind::NotFound,
        table.remove(id).remove(id) == table.remove(id),
{
    assert(table.rows.remove(id).remove(id) =~= table.rows.remove(id));
}

/// A partial update keeps the rest: where the table holds a row under `id` that was last
/// updated before `now`, the row after the write has each field that the request lacks
/// as it was and each that it holds as given, was created when it was, and was updated
/// strictly later than before; no other row changes.
pub proof fn partial_update_keeps_the_rest(
    table: Table,
    id: u128,
    req: UpdateTodoRequest,
    now: Timestamp,
)
    requires
        table.well_formed(),
        table.in_order(),
        table.holds(id),
        table.rows[id].updated_at.before(now),
    ensures
        update_plan(id, Ok(table.find(id)), req, now) matches Ok(row) && {
            let before = table.rows[id];
            let after = table.write(row).rows[id];
            &&& table.write(row).holds(id)
            &&& after == row
            &&& after.id == id
            &&& req.title is None ==> after.title == before.title
            &&& req.description is None ==> after.description == before.description
            &&& req.completed is None ==> after.completed == before.completed
            &&& req.title matches Some(title) ==> after.title == title@
            &&& req.description matches Some(description) ==> after.description == Some(
                description@,
            )
            &&& req.completed matches Some(completed) ==> after.completed == completed
            &&& after.created_at == before.created_at
            &&& before.updated_at.before(after.updated_at)
            &&& forall|other: u128| other != id ==> table.write(row).find(other) == table.find(other)
            &&& table.write(row).well_formed()
            &&& table.write(row).in_order()
        },
{
}

/// A listing is newest first: of two listed rows, the one created later comes earlier.
pub proof fn listing_is_newest_first(table: Table, listing: Seq<TodoView>, i: int, j: int)
    requires
        table.lists(listing),
        0 <= i < listing.len(),
        0 <= j < listing.len(),
        listing[i].created_at.before(listing[j].created_at),
    ensures
        j < i,
{
}

/// Items are listed last created first: where the table holds just `a`, `b` and `c`,
/// inserted in this order and each created before the next, its listing is `c`, `b`, `a`.
pub proof fn three_created_in_turn_list_in_reverse(
    a: TodoView,
    b: TodoView,
    c: TodoView,
    listing: Seq<TodoView>,
)
    requires
        a.id != b.id,
        a.id != c.id,
        b.id != c.id,
        a.created_at.before(b.created_at),
        b.created_at.before(c.created_at),
        Table::empty().insert(a).insert(b).insert(c).lists(listing),
    ensures
        listing =~= seq![c, b, a],
{
    let table = Table::empty().insert(a).insert(b).insert(c);
    assert(table.holds(a.id) && table.holds(b.id) && table.holds(c.id));
    let ia = choose|i: int| 0 <= i < listing.len() && (#[trigger] listing[i]).id == a.id;
    let ib = choose|i: int| 0 <= i < listing.len() && (#[trigger] listing[i]).id == b.id;
    let ic = choose|i: int| 0 <= i < listing.len() && (#[trigger] listing[i]).id == c.id;
    assert(listing[ia] == a && listing[ib] == b && listing[ic] == c);
    listing_is_newest_first(table, listing, ia, ib);
    listing_is_newest_first(table, listing, ib, ic);
    if listing.len() > 3 {
        assert(table.holds(listing[0].id) && table.holds(listing[1].id));
        assert(table.holds(listing[2].id) && table.holds(listing[3].id));
        assert(false);
    }
}

/// A created item is read back as it was answered: after the insert, a get on the
/// identifier answers the row that the create answered, field for field.
pub proof fn created_item_reads_back(table: Table, req: CreateTodoRequest, id: u128, now: Timestamp)
    requires
        !is_blank(req.title@),
    ensures
        create_plan(req, id, now) matches Ok(row) && row_reply(table.insert(row).find_one(row.id))
            == row_reply(Ok(row)) && row_reply(Ok(row)) == Ok::<TodoView, ApiErrorView>(row),
{
}

} // verus!
