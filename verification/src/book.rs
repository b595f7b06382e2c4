use vstd::prelude::*;

verus! {

/// A persisted row of the `books` table. The two timestamps are naive
/// (timezone-free) instants measured in seconds; the storage engine
/// assigns `id`, and `created_at <= updated_at` holds for every stored
/// row (see `store::BookStore::wf`).
pub struct Book {
    pub id: i64,
    pub title: String,
    pub author: String,
    pub publisher: String,
    pub isbn: String,
    pub comment: String,
    pub created_at: i64,
    pub updated_at: i64,
}

/// The mathematical value of a `Book`: its fields as unbounded integers
/// and character sequences.
#[verifier::ext_equal]
pub struct BookView {
    pub id: int,
    pub title: Seq<char>,
    pub author: Seq<char>,
    pub publisher: Seq<char>,
    pub isbn: Seq<char>,
    pub comment: Seq<char>,
    pub created_at: int,
    pub updated_at: int,
}

impl View for Book {
    type V = BookView;

    open spec fn view(&self) -> BookView {
        BookView {
            id: self.id as int,
            title: self.title@,
            author: self.author@,
            publisher: self.publisher@,
            isbn: self.isbn@,
            comment: self.comment@,
            created_at: self.created_at as int,
            updated_at: self.updated_at as int,
        }
    }
}

impl Clone for Book {
    fn clone(&self) -> (r: Book)
        ensures
            r@ == self@,
    {
        Book {
            id: self.id,
            title: self.title.clone(),
            author: self.author.clone(),
            publisher: self.publisher.clone(),
            isbn: self.isbn.clone(),
            comment: self.comment.clone(),
            created_at: self.created_at,
            updated_at: self.updated_at,
        }
    }
}

impl Book {
    /// The record mapper: builds a `Book` from the plain column values of
    /// one relational row, field by field in table order.
    pub fn from_row(
        id: i64,
        title: String,
        author: String,
        publisher: String,
        isbn: String,
        comment: String,
        created_at: i64,
        updated_at: i64,
    ) -> (b: Book)
        ensures
            b@ == (BookView {
                id: id as int,
                title: title@,
                author: author@,
                publisher: publisher@,
                isbn: isbn@,
                comment: comment@,
                created_at: created_at as int,
                updated_at: updated_at as int,
            }),
    {
        Book { id, title, author, publisher, isbn, comment, created_at, updated_at }
    }
}

/// The payload of a create request: every field is required, and none is
/// validated beyond being present.
pub struct CreateNewBook {
    pub title: String,
    pub author: String,
    pub publisher: String,
    pub isbn: String,
    pub comment: String,
}

/// The mathematical value of a `CreateNewBook`.
#[verifier::ext_equal]
pub struct CreateNewBookView {
    pub title: Seq<char>,
    pub author: Seq<char>,
    pub publisher: Seq<char>,
    pub isbn: Seq<char>,
    pub comment: Seq<char>,
}

impl View for CreateNewBook {
    type V = CreateNewBookView;

    open spec fn view(&self) -> CreateNewBookView {
        CreateNewBookView {
            title: self.title@,
            author: self.author@,
            publisher: self.publisher@,
            isbn: self.isbn@,
            comment: self.comment@,
        }
    }
}

/// The payload of an update request: the one field that may change.
pub struct UpdateComment {
    pub comment: String,
}

/// The body of a successful list response: every stored book.
pub struct BookList(pub Vec<Book>);

} // verus!
