//! The data model: a persisted blog post, the transient payload of a
//! creation request, and the row staged for insertion.

use vstd::prelude::*;

use crate::slug::{slug_of, slugify_title};
use crate::store::{PostStore, RepoError};

verus! {

/// Mathematical value of a persisted post.
pub struct PostView {
    pub id: int,
    pub title: Seq<char>,
    pub slug: Seq<char>,
    pub body: Seq<char>,
}

/// A persisted blog post: a system-assigned identifier, the title, the slug
/// derived from the title at creation time, and the body text.
#[derive(Debug)]
pub struct Post {
    pub id: i32,
    pub title: String,
    pub slug: String,
    pub body: String,
}

impl View for Post {
    type V = PostView;

    open spec fn view(&self) -> PostView {
        PostView {
            id: self.id as int,
            title: self.title@,
            slug: self.slug@,
            body: self.body@,
        }
    }
}

impl Clone for Post {
    fn clone(&self) -> (res: Self)
        ensures
            res@ == self@,
    {
        Post {
            id: self.id,
            title: self.title.clone(),
            slug: self.slug.clone(),
            body: self.body.clone(),
        }
    }
}

/// Mathematical value of a creation request.
pub struct NewPostView {
    pub title: Seq<char>,
    pub body: Seq<char>,
}

/// The payload of a creation request: a title and a body, not yet persisted,
/// with no identifier and no slug.
pub struct NewPostHandler {
    pub title: String,
    pub body: String,
}

impl View for NewPostHandler {
    type V = NewPostView;

    open spec fn view(&self) -> NewPostView {
        NewPostView { title: self.title@, body: self.body@ }
    }
}

/// Mathematical value of a staged row.
pub struct NewPostRowView {
    pub title: Seq<char>,
    pub slug: Seq<char>,
    pub body: Seq<char>,
}

/// A row staged for insertion: the title and body of the request together
/// with the slug computed from the title.
pub struct NewPost<'a> {
    pub title: &'a str,
    pub body: &'a str,
    pub slug: &'a str,
}

impl<'a> View for NewPost<'a> {
    type V = NewPostRowView;

    open spec fn view(&self) -> NewPostRowView {
        NewPostRowView { title: self.title@, slug: self.slug@, body: self.body@ }
    }
}

impl Post {
    /// The slug of a title: every space replaced by the substring "to", then
    /// the whole lowercased (ASCII case folding).
    pub fn slugify(title: &String) -> (r: String)
        ensures
            r@ == slug_of(title@),
    {
        slugify_title(title.as_str())
    }

    /// Creates a post from a request payload: derives the slug from the
    /// title, stages the row, and inserts it into the store, which assigns
    /// the identifier. Fails only when the store refuses the insertion.
    pub fn create_post(store: &mut PostStore, post: &NewPostHandler) -> (r: Result<
        Post,
        RepoError,
    >)
        requires
            old(store).wf(),
        ensures
            final(store).wf(),
            r is Ok <==> old(store)@.next_id < i32::MAX,
            match r {
                Ok(p) => {
                    &&& p@.id == old(store)@.next_id
                    &&& p@.title == post@.title
                    &&& p@.slug == slug_of(post@.title)
                    &&& p@.body == post@.body
                    &&& final(store)@.posts == old(store)@.posts.push(p@)
                    &&& final(store)@.next_id == old(store)@.next_id + 1
                },
                Err(e) => {
                    &&& e == RepoError::DataAccessError
                    &&& final(store)@ == old(store)@
                },
            },
    {
        let slug_text = Post::slugify(&post.title);
        let row = NewPost {
            title: post.title.as_str(),
            body: post.body.as_str(),
            slug: slug_text.as_str(),
        };
        store.insert_row(row)
    }
}

} // verus!
