use crate::book::{Book, BookList, BookView, CreateNewBook, UpdateComment};
use crate::status::{
    STATUS_BAD_REQUEST, STATUS_CREATED, STATUS_INTERNAL_ERROR, STATUS_NO_CONTENT, STATUS_OK,
};
use crate::store::{contains_id, spec_delete, spec_insert, spec_update, BookStore};
use vstd::prelude::*;

verus! {

/// What executing one SQL statement came to: the affected-row count the
/// engine reported, or a connection-acquisition or execution failure.
#[derive(Clone, Copy)]
pub enum QueryOutcome {
    Rows(u64),
    Failed,
}

/// The status the create endpoint answers with: 201 for exactly one
/// affected row, 400 for any other count, 500 for a failure.
pub open spec fn spec_create_response(o: QueryOutcome) -> int {
    match o {
        QueryOutcome::Rows(n) => if n == 1 {
            STATUS_CREATED as int
        } else {
            STATUS_BAD_REQUEST as int
        },
        QueryOutcome::Failed => STATUS_INTERNAL_ERROR as int,
    }
}

/// The status the update-comment and delete endpoints answer with: 204
/// for exactly one affected row, 400 for any other count (the id was
/// not found), 500 for a failure.
pub open spec fn spec_mutation_response(o: QueryOutcome) -> int {
    match o {
        QueryOutcome::Rows(n) => if n == 1 {
            STATUS_NO_CONTENT as int
        } else {
            STATUS_BAD_REQUEST as int
        },
        QueryOutcome::Failed => STATUS_INTERNAL_ERROR as int,
    }
}

/// The status an update or delete keyed on a unique id yields over a
/// working engine: 204 when a row has the id, 400 when none does.
pub open spec fn mutation_status(s: Seq<BookView>, id: int) -> int {
    if contains_id(s, id) {
        STATUS_NO_CONTENT as int
    } else {
        STATUS_BAD_REQUEST as int
    }
}

/// Maps the outcome of the create endpoint's insert statement to its
/// response status.
pub fn create_response(o: QueryOutcome) -> (status: u16)
    ensures
        status == spec_create_response(o),
{
    match o {
        QueryOutcome::Rows(n) => if n == 1 {
            STATUS_CREATED
        } else {
            STATUS_BAD_REQUEST
        },
        QueryOutcome::Failed => STATUS_INTERNAL_ERROR,
    }
}

/// Maps the outcome of an update or delete statement to its response
/// status.
pub fn mutation_response(o: QueryOutcome) -> (status: u16)
    ensures
        status == spec_mutation_response(o),
{
    match o {
        QueryOutcome::Rows(n) => if n == 1 {
            STATUS_NO_CONTENT
        } else {
            STATUS_BAD_REQUEST
        },
        QueryOutcome::Failed => STATUS_INTERNAL_ERROR,
    }
}

/// Maps the outcome of the list endpoint's fetch to its response
/// status: 200 when the rows came back, 500 otherwise.
pub fn list_response(fetched: bool) -> (status: u16)
    ensures
        fetched ==> status == STATUS_OK as int,
        !fetched ==> status == STATUS_INTERNAL_ERROR as int,
{
    if fetched {
        STATUS_OK
    } else {
        STATUS_INTERNAL_ERROR
    }
}

/// The liveness probe: answers 204 unconditionally. It takes no handle
/// on the store, so its answer cannot depend on the storage engine.
pub fn health_check() -> (status: u16)
    ensures
        status == STATUS_NO_CONTENT as int,
{
    STATUS_NO_CONTENT
}

/// The list endpoint over a working engine: every stored book, in
/// storage order.
pub fn book_list(store: &BookStore) -> (r: BookList)
    ensures
        r.0@.map_values(|b: Book| b@) == store@,
{
    BookList(store.select_all())
}

/// The create endpoint over a working engine: inserts one row built
/// from the request at the server time `now` and answers 201.
pub fn create_item(store: &mut BookStore, req: CreateNewBook, now: i64) -> (status: u16)
    requires
        old(store).wf(),
        old(store).time_ok(now as int),
        old(store).next_id < i64::MAX,
    ensures
        final(store)@ == spec_insert(old(store)@, req@, old(store).next_id as int, now as int),
        final(store).next_id == old(store).next_id + 1,
        final(store).wf(),
        final(store).time_ok(now as int),
        status == STATUS_CREATED as int,
{
    let rows = store.insert_book(req, now);
    create_response(QueryOutcome::Rows(rows))
}

/// The update-comment endpoint over a working engine: rewrites the
/// comment and updated_at of the row with the given id and answers
/// 204, or answers 400 and changes nothing when no row has the id.
pub fn update_comment(store: &mut BookStore, id: i64, req: UpdateComment, now: i64) -> (status: u16)
    requires
        old(store).wf(),
        old(store).time_ok(now as int),
    ensures
        final(store)@ == spec_update(old(store)@, id as int, req.comment@, now as int),
        final(store).next_id == old(store).next_id,
        final(store).wf(),
        final(store).time_ok(now as int),
        status == mutation_status(old(store)@, id as int),
{
    let rows = store.update_comment_row(id, req.comment, now);
    mutation_response(QueryOutcome::Rows(rows))
}

/// The delete endpoint over a working engine: removes the row with the
/// given id and answers 204, or answers 400 and changes nothing when no
/// row has the id.
pub fn delete_item(store: &mut BookStore, id: i64) -> (status: u16)
    requires
        old(store).wf(),
    ensures
        final(store)@ == spec_delete(old(store)@, id as int),
        final(store).next_id == old(store).next_id,
        final(store).wf(),
        forall|t: int| old(store).time_ok(t) ==> final(store).time_ok(t),
        status == mutation_status(old(store)@, id as int),
{
    let rows = store.delete_row(id);
    mutation_response(QueryOutcome::Rows(rows))
}

} // verus!
