use books_api::book::{Book, CreateNewBook, UpdateComment};
use books_api::handlers::{
    book_list, create_item, delete_item, health_check, update_comment,
};
use books_api::store::BookStore;

fn request(title: &str, author: &str, publisher: &str, isbn: &str, comment: &str) -> CreateNewBook {
    CreateNewBook {
        title: title.to_string(),
        author: author.to_string(),
        publisher: publisher.to_string(),
        isbn: isbn.to_string(),
        comment: comment.to_string(),
    }
}

#[test]
fn health_check_returns_204() {
    assert_eq!(health_check(), 204);
}

#[test]
fn list_of_empty_store_is_empty() {
    let store = BookStore::new();
    let list = book_list(&store);
    assert!(list.0.is_empty());
}

#[test]
fn create_then_list_contains_exactly_the_new_book() {
    let mut store = BookStore::new();
    let before = book_list(&store).0.len();
    let status = create_item(&mut store, request("t", "a", "p", "i", "c"), 50);
    assert_eq!(status, 201);
    let list = book_list(&store).0;
    assert_eq!(list.len(), before + 1);
    let b: &Book = &list[0];
    assert_eq!(b.id, 1);
    assert_eq!(b.title, "t");
    assert_eq!(b.author, "a");
    assert_eq!(b.publisher, "p");
    assert_eq!(b.isbn, "i");
    assert_eq!(b.comment, "c");
    assert_eq!(b.created_at, b.updated_at);
}

#[test]
fn created_books_get_distinct_increasing_ids() {
    let mut store = BookStore::new();
    assert_eq!(create_item(&mut store, request("t1", "a", "p", "i", "c"), 10), 201);
    assert_eq!(create_item(&mut store, request("t2", "a", "p", "i", "c"), 20), 201);
    let list = book_list(&store).0;
    assert_eq!(list.len(), 2);
    assert_eq!(list[0].id, 1);
    assert_eq!(list[1].id, 2);
}

#[test]
fn update_changes_only_comment_and_updated_at() {
    let mut store = BookStore::new();
    create_item(&mut store, request("t", "a", "p", "i", "old"), 100);
    let status = update_comment(&mut store, 1, UpdateComment { comment: "new".to_string() }, 150);
    assert_eq!(status, 204);
    let list = book_list(&store).0;
    assert_eq!(list.len(), 1);
    let b = &list[0];
    assert_eq!(b.comment, "new");
    assert_eq!(b.updated_at, 150);
    assert!(b.updated_at > b.created_at);
    assert_eq!(b.id, 1);
    assert_eq!(b.title, "t");
    assert_eq!(b.author, "a");
    assert_eq!(b.publisher, "p");
    assert_eq!(b.isbn, "i");
    assert_eq!(b.created_at, 100);
}

#[test]
fn update_of_missing_id_returns_400_and_changes_nothing() {
    let mut store = BookStore::new();
    create_item(&mut store, request("t", "a", "p", "i", "c"), 100);
    let status = update_comment(&mut store, 9, UpdateComment { comment: "x".to_string() }, 200);
    assert_eq!(status, 400);
    let list = book_list(&store).0;
    assert_eq!(list.len(), 1);
    assert_eq!(list[0].comment, "c");
    assert_eq!(list[0].updated_at, 100);
}

#[test]
fn delete_of_missing_id_returns_400_and_changes_nothing() {
    let mut store = BookStore::new();
    create_item(&mut store, request("t", "a", "p", "i", "c"), 100);
    let status = delete_item(&mut store, 9);
    assert_eq!(status, 400);
    assert_eq!(book_list(&store).0.len(), 1);
}

#[test]
fn delete_twice_yields_one_success_then_not_found() {
    let mut store = BookStore::new();
    create_item(&mut store, request("t", "a", "p", "i", "c"), 100);
    assert_eq!(delete_item(&mut store, 1), 204);
    assert_eq!(delete_item(&mut store, 1), 400);
    assert!(book_list(&store).0.is_empty());
}

#[test]
fn delete_keeps_the_other_rows() {
    let mut store = BookStore::new();
    create_item(&mut store, request("t1", "a1", "p1", "i1", "c1"), 10);
    create_item(&mut store, request("t2", "a2", "p2", "i2", "c2"), 20);
    create_item(&mut store, request("t3", "a3", "p3", "i3", "c3"), 30);
    assert_eq!(delete_item(&mut store, 2), 204);
    let list = book_list(&store).0;
    assert_eq!(list.len(), 2);
    assert_eq!(list[0].id, 1);
    assert_eq!(list[0].title, "t1");
    assert_eq!(list[1].id, 3);
    assert_eq!(list[1].title, "t3");
}

#[test]
fn full_crud_scenario() {
    let mut store = BookStore::new();
    let status = create_item(
        &mut store,
        request("T", "A", "P", "123", "c"),
        1000,
    );
    assert_eq!(status, 201);

    let list = book_list(&store).0;
    assert_eq!(list.len(), 1);
    let id = list[0].id;
    assert_eq!(list[0].title, "T");
    assert_eq!(list[0].author, "A");
    assert_eq!(list[0].publisher, "P");
    assert_eq!(list[0].isbn, "123");
    assert_eq!(list[0].comment, "c");

    let status = update_comment(&mut store, id, UpdateComment { comment: "c2".to_string() }, 2000);
    assert_eq!(status, 204);
    let list = book_list(&store).0;
    assert_eq!(list[0].comment, "c2");

    let status = delete_item(&mut store, id);
    assert_eq!(status, 204);
    assert!(book_list(&store).0.iter().all(|b| b.id != id));

    let status = update_comment(&mut store, id, UpdateComment { comment: "c3".to_string() }, 3000);
    assert_eq!(status, 400);
}

#[test]
fn create_accepts_empty_strings() {
    let mut store = BookStore::new();
    let status = create_item(&mut store, request("", "", "", "", ""), 0);
    assert_eq!(status, 201);
    let list = book_list(&store).0;
    assert_eq!(list.len(), 1);
    assert_eq!(list[0].title, "");
    assert_eq!(list[0].comment, "");
    assert_eq!(list[0].created_at, list[0].updated_at);
}

#[test]
fn update_keeps_the_other_rows() {
    let mut store = BookStore::new();
    create_item(&mut store, request("t1", "a1", "p1", "i1", "c1"), 10);
    create_item(&mut store, request("t2", "a2", "p2", "i2", "c2"), 20);
    let status = update_comment(&mut store, 1, UpdateComment { comment: "c9".to_string() }, 30);
    assert_eq!(status, 204);
    let list = book_list(&store).0;
    assert_eq!(list.len(), 2);
    assert_eq!(list[0].comment, "c9");
    assert_eq!(list[0].updated_at, 30);
    assert_eq!(list[1].comment, "c2");
    assert_eq!(list[1].updated_at, 20);
    assert_eq!(list[1].title, "t2");
}
