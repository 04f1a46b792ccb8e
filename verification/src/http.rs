//! Translation of repository outcomes into HTTP replies.
//!
//! Each endpoint runs exactly one repository operation and turns its outcome
//! into a status code and the content to render. Rendering itself (HTML
//! templating, JSON encoding) happens outside the library; the reply states
//! which posts the response may reflect.

use vstd::prelude::*;

use crate::models::{NewPostHandler, Post};
use crate::slug::slug_of;
use crate::store::{PostStore, RepoError};

verus! {

/// What a reply's body reflects: nothing, the full list of posts, one post
/// fetched by slug, or the post just created.
pub enum Rendered {
    NoBody,
    PostList(Vec<Post>),
    SinglePost(Post),
    CreatedPost(Post),
}

/// An HTTP reply: the status code and the content the body reflects.
pub struct Reply {
    pub status: u16,
    pub content: Rendered,
}

/// Reply for the post-listing endpoint: a successful query renders the
/// posts, any repository failure is a server error with no content.
pub fn index_reply(r: Result<Vec<Post>, RepoError>) -> (reply: Reply)
    ensures
        match r {
            Ok(v) => reply.status == 200 && (reply.content matches Rendered::PostList(w)
                && w@ == v@),
            Err(_) => reply.status == 500 && reply.content is NoBody,
        },
{
    match r {
        Ok(v) => Reply { status: 200, content: Rendered::PostList(v) },
        Err(_) => Reply { status: 500, content: Rendered::NoBody },
    }
}

/// Reply for the single-post endpoint: an empty query result is not found
/// and the body reflects no post; otherwise the first match is rendered; a
/// repository failure is a server error.
pub fn get_post_reply(r: Result<Vec<Post>, RepoError>) -> (reply: Reply)
    ensures
        match r {
            Ok(v) => {
                if v@.len() == 0 {
                    reply.status == 404 && reply.content is NoBody
                } else {
                    reply.status == 200 && (reply.content matches Rendered::SinglePost(p)
                        && p == v@[0])
                }
            },
            Err(_) => reply.status == 500 && reply.content is NoBody,
        },
{
    match r {
        Ok(mut v) => {
            if v.len() == 0 {
                Reply { status: 404, content: Rendered::NoBody }
            } else {
                let p = v.remove(0);
                Reply { status: 200, content: Rendered::SinglePost(p) }
            }
        },
        Err(_) => Reply { status: 500, content: Rendered::NoBody },
    }
}

/// Reply for the creation endpoint once the repository has answered: the
/// created post is returned on success, any failure is a server error.
pub fn new_post_reply(r: Result<Post, RepoError>) -> (reply: Reply)
    ensures
        match r {
            Ok(p) => reply.status == 200 && (reply.content matches Rendered::CreatedPost(q)
                && q == p),
            Err(_) => reply.status == 500 && reply.content is NoBody,
        },
{
    match r {
        Ok(p) => Reply { status: 200, content: Rendered::CreatedPost(p) },
        Err(_) => Reply { status: 500, content: Rendered::NoBody },
    }
}

/// The whole creation endpoint against a store: a request whose body did not
/// parse into a payload is rejected with 400 before the store is touched;
/// a parsed payload is created and answered as `new_post_reply` does.
pub fn handle_new_post(store: &mut PostStore, parsed: Option<NewPostHandler>) -> (reply: Reply)
    requires
        old(store).wf(),
    ensures
        final(store).wf(),
        parsed is None ==> reply.status == 400 && reply.content is NoBody && final(store)@
            == old(store)@,
        parsed matches Some(input) ==> {
            &&& old(store)@.next_id < i32::MAX ==> reply.status == 200 && (reply.content matches
                Rendered::CreatedPost(p)
                && p@.id == old(store)@.next_id
                && p@.title == input@.title
                && p@.slug == slug_of(input@.title)
                && p@.body == input@.body
                && final(store)@.posts == old(store)@.posts.push(p@)
                && final(store)@.next_id == old(store)@.next_id + 1)
            &&& old(store)@.next_id == i32::MAX ==> reply.status == 500 && reply.content is NoBody
                && final(store)@ == old(store)@
        },
{
    match parsed {
        None => Reply { status: 400, content: Rendered::NoBody },
        Some(input) => {
            match Post::create_post(store, &input) {
                Ok(p) => Reply { status: 200, content: Rendered::CreatedPost(p) },
                Err(_) => Reply { status: 500, content: Rendered::NoBody },
            }
        },
    }
}

} // verus!
