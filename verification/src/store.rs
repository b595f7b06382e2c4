use crate::book::{Book, BookView, CreateNewBook, CreateNewBookView};
use vstd::prelude::*;

verus! {

/// Whether some stored row carries the given id.
pub open spec fn contains_id(s: Seq<BookView>, id: int) -> bool {
    exists|i: int| 0 <= i < s.len() && s[i].id == id
}

/// The position of the row carrying the given id; meaningful only when
/// `contains_id(s, id)` holds, and then unique whenever `ids_unique(s)`.
pub open spec fn idx_of(s: Seq<BookView>, id: int) -> int {
    choose|i: int| 0 <= i < s.len() && s[i].id == id
}

/// No two stored rows share an id.
pub open spec fn ids_unique(s: Seq<BookView>) -> bool {
    forall|i: int, j: int|
        0 <= i < s.len() && 0 <= j < s.len() && i != j ==> s[i].id != s[j].id
}

/// The row that an insert writes: the request's fields, the assigned id,
/// and both timestamps set to the server time of the statement.
pub open spec fn new_book_view(req: CreateNewBookView, id: int, now: int) -> BookView {
    BookView {
        id: id,
        title: req.title,
        author: req.author,
        publisher: req.publisher,
        isbn: req.isbn,
        comment: req.comment,
        created_at: now,
        updated_at: now,
    }
}

/// A row after `update books set comment = ?, updated_at = now()`:
/// comment and updated_at replaced, every other field kept.
pub open spec fn with_comment(b: BookView, comment: Seq<char>, now: int) -> BookView {
    BookView { comment: comment, updated_at: now, ..b }
}

/// The table after inserting one new row at the end.
pub open spec fn spec_insert(
    s: Seq<BookView>,
    req: CreateNewBookView,
    id: int,
    now: int,
) -> Seq<BookView> {
    s.push(new_book_view(req, id, now))
}

/// The table after `update books set comment = ?, updated_at = now()
/// where id = ?`: unchanged when no row has the id.
pub open spec fn spec_update(
    s: Seq<BookView>,
    id: int,
    comment: Seq<char>,
    now: int,
) -> Seq<BookView> {
    if contains_id(s, id) {
        s.update(idx_of(s, id), with_comment(s[idx_of(s, id)], comment, now))
    } else {
        s
    }
}

/// The table after `delete from books where id = ?`: unchanged when no
/// row has the id.
pub open spec fn spec_delete(s: Seq<BookView>, id: int) -> Seq<BookView> {
    if contains_id(s, id) {
        s.remove(idx_of(s, id))
    } else {
        s
    }
}

/// How many rows an update or delete keyed on a unique id affects.
pub open spec fn rows_for(s: Seq<BookView>, id: int) -> int {
    if contains_id(s, id) {
        1
    } else {
        0
    }
}

/// The `books` table itself: the stored rows in engine order, and the
/// auto-increment counter for the next assigned id.
pub struct BookStore {
    pub books: Vec<Book>,
    pub next_id: i64,
}

impl View for BookStore {
    type V = Seq<BookView>;

    open spec fn view(&self) -> Seq<BookView> {
        self.books@.map_values(|b: Book| b@)
    }
}

impl BookStore {
    /// The table invariant: ids are unique, positive and below the
    /// auto-increment counter, and no row was updated before it was
    /// created.
    pub open spec fn wf(&self) -> bool {
        &&& ids_unique(self@)
        &&& forall|i: int| 0 <= i < self@.len() ==> #[trigger] self@[i].created_at <= self@[i].updated_at
        &&& forall|i: int| 0 <= i < self@.len() ==> 0 < #[trigger] self@[i].id < self.next_id as int
        &&& self.next_id >= 1
    }

    /// The server clock has not run backwards past any stored timestamp.
    pub open spec fn time_ok(&self, now: int) -> bool {
        forall|i: int| 0 <= i < self@.len() ==> #[trigger] self@[i].updated_at <= now
    }

    /// An empty table, with ids to be assigned from 1 upward.
    pub fn new() -> (s: BookStore)
        ensures
            s@ == Seq::<BookView>::empty(),
            s.next_id == 1,
            s.wf(),
    {
        let s = BookStore { books: Vec::new(), next_id: 1 };
        proof {
            assert(s@ =~= Seq::<BookView>::empty());
        }
        s
    }

    /// `select * from books`: every stored row, in storage order.
    pub fn select_all(&self) -> (r: Vec<Book>)
        ensures
            r@.map_values(|b: Book| b@) == self@,
    {
        let mut r: Vec<Book> = Vec::new();
        let mut i: usize = 0;
        while i < self.books.len()
            invariant
                i <= self.books.len(),
                r@.len() == i,
                forall|j: int| 0 <= j < i ==> (#[trigger] r@[j])@ == self@[j],
            decreases self.books.len() - i,
        {
            r.push(self.books[i].clone());
            i = i + 1;
        }
        proof {
            assert(r@.map_values(|b: Book| b@) =~= self@);
        }
        r
    }

    /// The position of the row with the given id, if any.
    fn find_index(&self, id: i64) -> (r: Option<usize>)
        ensures
            (r matches Some(i) ==> i < self.books.len() && self@[i as int].id == id as int),
            r is None ==> !contains_id(self@, id as int),
    {
        let mut i: usize = 0;
        while i < self.books.len()
            invariant
                i <= self.books.len(),
                forall|j: int| 0 <= j < i ==> #[trigger] self@[j].id != id as int,
            decreases self.books.len() - i,
        {
            if self.books[i].id == id {
                return Some(i);
            }
            i = i + 1;
        }
        None
    }

    /// The insert statement of the create endpoint: appends one row
    /// built from the request, assigns the next id, and reports one
    /// affected row.
    pub fn insert_book(&mut self, req: CreateNewBook, now: i64) -> (rows: u64)
        requires
            old(self).wf(),
            old(self).time_ok(now as int),
            old(self).next_id < i64::MAX,
        ensures
            final(self)@ == spec_insert(old(self)@, req@, old(self).next_id as int, now as int),
            final(self).next_id == old(self).next_id + 1,
            final(self).wf(),
            final(self).time_ok(now as int),
            rows == 1,
    {
        let b = Book {
            id: self.next_id,
            title: req.title,
            author: req.author,
            publisher: req.publisher,
            isbn: req.isbn,
            comment: req.comment,
            created_at: now,
            updated_at: now,
        };
        self.books.push(b);
        self.next_id = self.next_id + 1;
        proof {
            assert(self@ =~= spec_insert(
                old(self)@,
                req@,
                old(self).next_id as int,
                now as int,
            ));
        }
        1
    }

    /// The update statement of the update-comment endpoint: replaces the
    /// comment and refreshes updated_at on the row with the given id,
    /// and reports how many rows that touched (one or zero).
    pub fn update_comment_row(&mut self, id: i64, comment: String, now: i64) -> (rows: u64)
        requires
            old(self).wf(),
            old(self).time_ok(now as int),
        ensures
            final(self)@ == spec_update(old(self)@, id as int, comment@, now as int),
            final(self).next_id == old(self).next_id,
            final(self).wf(),
            final(self).time_ok(now as int),
            rows == rows_for(old(self)@, id as int),
    {
        match self.find_index(id) {
            Some(i) => {
                proof {
                    assert(contains_id(self@, id as int));
                    assert(idx_of(self@, id as int) == i as int);
                }
                let b = self.books.remove(i);
                let updated = Book {
                    comment: comment,
                    updated_at: now,
                    ..b
                };
                self.books.insert(i, updated);
                proof {
                    assert(self@ =~= spec_update(
                        old(self)@,
                        id as int,
                        comment@,
                        now as int,
                    ));
                }
                1
            },
            None => {
                0
            },
        }
    }

    /// The delete statement of the delete endpoint: removes the row with
    /// the given id, and reports how many rows that touched (one or
    /// zero).
    pub fn delete_row(&mut self, id: i64) -> (rows: u64)
        requires
            old(self).wf(),
        ensures
            final(self)@ == spec_delete(old(self)@, id as int),
            final(self).next_id == old(self).next_id,
            final(self).wf(),
            forall|t: int| old(self).time_ok(t) ==> final(self).time_ok(t),
            rows == rows_for(old(self)@, id as int),
    {
        match self.find_index(id) {
            Some(i) => {
                proof {
                    assert(contains_id(self@, id as int));
                    assert(idx_of(self@, id as int) == i as int);
                }
                self.books.remove(i);
                proof {
                    assert(self@ =~= spec_delete(old(self)@, id as int));
                }
                1
            },
            None => {
                0
            },
        }
    }
}

} // verus!
