use crate::book::{BookView, CreateNewBookView};
use crate::status::{STATUS_BAD_REQUEST, STATUS_NO_CONTENT};
use crate::store::{
    contains_id, idx_of, ids_unique, rows_for, spec_delete, spec_insert, spec_update,
};
use crate::handlers::mutation_status;
use vstd::prelude::*;

verus! {

/// Creating a book adds exactly one row: every row that was stored
/// stays unchanged in place, and the one new row carries the submitted
/// field values, the assigned id, and equal timestamps.
pub proof fn lemma_create_adds_exactly_one(
    s: Seq<BookView>,
    req: CreateNewBookView,
    id: int,
    now: int,
)
    ensures
        spec_insert(s, req, id, now).len() == s.len() + 1,
        forall|i: int| 0 <= i < s.len() ==> spec_insert(s, req, id, now)[i] == s[i],
        spec_insert(s, req, id, now)[s.len() as int].id == id,
        spec_insert(s, req, id, now)[s.len() as int].title == req.title,
        spec_insert(s, req, id, now)[s.len() as int].author == req.author,
        spec_insert(s, req, id, now)[s.len() as int].publisher == req.publisher,
        spec_insert(s, req, id, now)[s.len() as int].isbn == req.isbn,
        spec_insert(s, req, id, now)[s.len() as int].comment == req.comment,
        spec_insert(s, req, id, now)[s.len() as int].created_at == now,
        spec_insert(s, req, id, now)[s.len() as int].created_at == spec_insert(
            s,
            req,
            id,
            now,
        )[s.len() as int].updated_at,
{
}

/// Updating the comment of a stored id changes only that row's comment
/// and updated_at: its id, title, author, publisher, isbn and
/// created_at are kept, every other row is kept whole, and — the server
/// clock having moved past the row's last update — updated_at strictly
/// increases.
pub proof fn lemma_update_changes_only_comment(
    s: Seq<BookView>,
    id: int,
    comment: Seq<char>,
    now: int,
)
    requires
        ids_unique(s),
        contains_id(s, id),
        now > s[idx_of(s, id)].updated_at,
    ensures
        0 <= idx_of(s, id) < s.len() && s[idx_of(s, id)].id == id,
        spec_update(s, id, comment, now).len() == s.len(),
        spec_update(s, id, comment, now)[idx_of(s, id)].comment == comment,
        spec_update(s, id, comment, now)[idx_of(s, id)].updated_at == now,
        spec_update(s, id, comment, now)[idx_of(s, id)].updated_at > s[idx_of(s, id)].updated_at,
        spec_update(s, id, comment, now)[idx_of(s, id)].id == s[idx_of(s, id)].id,
        spec_update(s, id, comment, now)[idx_of(s, id)].title == s[idx_of(s, id)].title,
        spec_update(s, id, comment, now)[idx_of(s, id)].author == s[idx_of(s, id)].author,
        spec_update(s, id, comment, now)[idx_of(s, id)].publisher == s[idx_of(s, id)].publisher,
        spec_update(s, id, comment, now)[idx_of(s, id)].isbn == s[idx_of(s, id)].isbn,
        spec_update(s, id, comment, now)[idx_of(s, id)].created_at == s[idx_of(s, id)].created_at,
        forall|j: int|
            0 <= j < s.len() && j != idx_of(s, id) ==> spec_update(s, id, comment, now)[j] == s[j],
{
    assert(contains_id(s, id));
}

/// For an id no row carries, both the update and the delete statement
/// touch zero rows, leave the table exactly as it was, and the
/// endpoints answer the not-found status, 400.
pub proof fn lemma_missing_id_rejected(s: Seq<BookView>, id: int, comment: Seq<char>, now: int)
    requires
        !contains_id(s, id),
    ensures
        spec_update(s, id, comment, now) == s,
        spec_delete(s, id) == s,
        rows_for(s, id) == 0,
        mutation_status(s, id) == STATUS_BAD_REQUEST as int,
{
}

/// Deleting a stored id twice yields one success and one not-found:
/// the first delete answers 204 and removes the row, after it no row
/// carries the id, and the second delete answers 400 and changes
/// nothing.
pub proof fn lemma_delete_idempotent(s: Seq<BookView>, id: int)
    requires
        ids_unique(s),
        contains_id(s, id),
    ensures
        mutation_status(s, id) == STATUS_NO_CONTENT as int,
        !contains_id(spec_delete(s, id), id),
        mutation_status(spec_delete(s, id), id) == STATUS_BAD_REQUEST as int,
        spec_delete(spec_delete(s, id), id) == spec_delete(s, id),
{
    let k = idx_of(s, id);
    assert(0 <= k < s.len() && s[k].id == id);
    let t = spec_delete(s, id);
    assert(t == s.remove(k));
    assert forall|j: int| 0 <= j < t.len() implies #[trigger] t[j].id != id by {
        if j < k {
            assert(t[j] == s[j]);
        } else {
            assert(t[j] == s[j + 1]);
        }
    }
}

} // verus!
