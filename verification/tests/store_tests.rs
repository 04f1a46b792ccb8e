use blog_posts::models::{NewPostHandler, Post};
use blog_posts::store::{PostStore, RepoError};

#[test]
fn create_assigns_first_id_and_derived_slug() {
    let mut store = PostStore::new();
    let p = store
        .create(&String::from("Hello World"), &String::from("x"))
        .expect("create should succeed on a fresh store");
    assert_eq!(p.id, 1);
    assert_eq!(p.title, "Hello World");
    assert_eq!(p.slug, "hellotoworld");
    assert_eq!(p.body, "x");
}

#[test]
fn create_then_find_by_id_returns_exactly_the_created_post() {
    let mut store = PostStore::new();
    store
        .create(&String::from("First"), &String::from("a"))
        .unwrap();
    let p = store
        .create(&String::from("Second"), &String::from("b"))
        .unwrap();
    let found = store.find_by_id(p.id);
    assert_eq!(found.len(), 1);
    assert_eq!(found[0].id, p.id);
    assert_eq!(found[0].title, p.title);
    assert_eq!(found[0].slug, p.slug);
    assert_eq!(found[0].body, p.body);
}

#[test]
fn find_by_slug_unknown_slug_is_empty_not_an_error() {
    let mut store = PostStore::new();
    store
        .create(&String::from("Hello World"), &String::from("x"))
        .unwrap();
    let found = store.find_by_slug(&String::from("no-such-slug"));
    assert!(found.is_empty());
}

#[test]
fn find_by_slug_returns_matches_in_order() {
    let mut store = PostStore::new();
    store
        .create(&String::from("Hello World"), &String::from("x"))
        .unwrap();
    store
        .create(&String::from("Other"), &String::from("y"))
        .unwrap();
    store
        .create(&String::from("HELLO WORLD"), &String::from("z"))
        .unwrap();
    let found = store.find_by_slug(&String::from("hellotoworld"));
    assert_eq!(found.len(), 2);
    assert_eq!(found[0].id, 1);
    assert_eq!(found[1].id, 3);
}

#[test]
fn list_all_returns_every_post_in_insertion_order() {
    let mut store = PostStore::new();
    store
        .create(&String::from("One"), &String::from("a"))
        .unwrap();
    store
        .create(&String::from("Two"), &String::from("b"))
        .unwrap();
    let all = store.list_all();
    assert_eq!(all.len(), 2);
    assert_eq!(all[0].title, "One");
    assert_eq!(all[1].title, "Two");
}

#[test]
fn successive_creates_receive_distinct_ids() {
    let mut store = PostStore::new();
    let p1 = store
        .create(&String::from("Same Title"), &String::from("a"))
        .unwrap();
    let p2 = store
        .create(&String::from("Same Title"), &String::from("b"))
        .unwrap();
    assert_ne!(p1.id, p2.id);
    assert_eq!(store.list_all().len(), 2);
}

#[test]
fn create_fails_with_data_access_error_when_ids_exhausted() {
    let mut store = PostStore::with_next_id(i32::MAX);
    let r = store.create(&String::from("Too Late"), &String::from("x"));
    assert_eq!(r.unwrap_err(), RepoError::DataAccessError);
    assert!(store.list_all().is_empty());
}

#[test]
fn with_next_id_resumes_identifier_assignment() {
    let mut store = PostStore::with_next_id(41);
    let p = store
        .create(&String::from("Answer"), &String::from("x"))
        .unwrap();
    assert_eq!(p.id, 41);
}

#[test]
fn create_post_matches_create() {
    let mut store = PostStore::new();
    let payload = NewPostHandler {
        title: String::from("Hello World"),
        body: String::from("x"),
    };
    let p = Post::create_post(&mut store, &payload).unwrap();
    assert_eq!(p.id, 1);
    assert_eq!(p.slug, "hellotoworld");
    assert_eq!(p.title, "Hello World");
    assert_eq!(p.body, "x");
}
