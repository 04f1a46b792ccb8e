use blog_posts::http::{get_post_reply, handle_new_post, index_reply, new_post_reply, Rendered, Reply};
use blog_posts::models::{NewPostHandler, Post};
use blog_posts::store::{PostStore, RepoError};

fn sample_post(id: i32) -> Post {
    Post {
        id,
        title: String::from("Hello World"),
        slug: String::from("hellotoworld"),
        body: String::from("x"),
    }
}

#[test]
fn index_ok_renders_the_posts() {
    let reply: Reply = index_reply(Ok(vec![sample_post(1), sample_post(2)]));
    assert_eq!(reply.status, 200);
    match reply.content {
        Rendered::PostList(v) => {
            assert_eq!(v.len(), 2);
            assert_eq!(v[0].id, 1);
            assert_eq!(v[1].id, 2);
        }
        _ => panic!("index should render the post list"),
    }
}

#[test]
fn index_store_failure_is_server_error() {
    let reply = index_reply(Err(RepoError::PoolExhausted));
    assert_eq!(reply.status, 500);
    assert!(matches!(reply.content, Rendered::NoBody));
}

#[test]
fn get_post_unknown_slug_is_not_found_with_no_content() {
    let reply = get_post_reply(Ok(Vec::new()));
    assert_eq!(reply.status, 404);
    assert!(matches!(reply.content, Rendered::NoBody));
}

#[test]
fn get_post_renders_first_match() {
    let reply = get_post_reply(Ok(vec![sample_post(7), sample_post(9)]));
    assert_eq!(reply.status, 200);
    match reply.content {
        Rendered::SinglePost(p) => assert_eq!(p.id, 7),
        _ => panic!("a match should be rendered"),
    }
}

#[test]
fn get_post_store_failure_is_server_error() {
    let reply = get_post_reply(Err(RepoError::ConnectionError));
    assert_eq!(reply.status, 500);
    assert!(matches!(reply.content, Rendered::NoBody));
}

#[test]
fn new_post_reply_returns_created_post() {
    let reply = new_post_reply(Ok(sample_post(3)));
    assert_eq!(reply.status, 200);
    match reply.content {
        Rendered::CreatedPost(p) => {
            assert_eq!(p.id, 3);
            assert_eq!(p.slug, "hellotoworld");
        }
        _ => panic!("the created post should be returned"),
    }
}

#[test]
fn new_post_reply_failure_is_server_error() {
    let reply = new_post_reply(Err(RepoError::DataAccessError));
    assert_eq!(reply.status, 500);
    assert!(matches!(reply.content, Rendered::NoBody));
}

#[test]
fn new_post_with_well_formed_body_creates_and_returns_post() {
    let mut store = PostStore::new();
    let payload = NewPostHandler {
        title: String::from("Hello World"),
        body: String::from("x"),
    };
    let reply = handle_new_post(&mut store, Some(payload));
    assert_eq!(reply.status, 200);
    match reply.content {
        Rendered::CreatedPost(p) => {
            assert_eq!(p.id, 1);
            assert_eq!(p.slug, "hellotoworld");
        }
        _ => panic!("creation should be answered with the post"),
    }
    assert_eq!(store.list_all().len(), 1);
}

#[test]
fn new_post_with_malformed_body_is_rejected_before_the_store() {
    let mut store = PostStore::new();
    let reply = handle_new_post(&mut store, None);
    assert_eq!(reply.status, 400);
    assert!(matches!(reply.content, Rendered::NoBody));
    assert!(store.list_all().is_empty());
}

#[test]
fn new_post_store_failure_is_server_error() {
    let mut store = PostStore::with_next_id(i32::MAX);
    let payload = NewPostHandler {
        title: String::from("Hello World"),
        body: String::from("x"),
    };
    let reply = handle_new_post(&mut store, Some(payload));
    assert_eq!(reply.status, 500);
    assert!(matches!(reply.content, Rendered::NoBody));
    assert!(store.list_all().is_empty());
}
