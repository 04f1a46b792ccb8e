//! The post repository: an in-memory model of the `posts` table.
//!
//! The store owns the persisted rows and assigns identifiers. It offers the
//! four repository operations: list every post, filter by slug, filter by
//! identifier, and insert a new row whose slug is derived from its title.
//! Identifiers are assigned in increasing order, so stored posts always carry
//! pairwise distinct identifiers.

use vstd::prelude::*;

use crate::models::{NewPost, Post, PostView};
use crate::slug::slug_of;

verus! {

/// A failure of the storage layer, surfaced to the HTTP layer as a server
/// error: no free connection in the pool, a broken connection, or a rejected
/// statement.
#[derive(Clone, Copy, Debug, PartialEq, Eq, Structural)]
pub enum RepoError {
    PoolExhausted,
    ConnectionError,
    DataAccessError,
}

/// Mathematical value of the store: the rows in insertion order and the
/// identifier the next insertion will receive.
pub struct StoreView {
    pub posts: Seq<PostView>,
    pub next_id: int,
}

/// The sequence of row values held by a sequence of posts.
pub open spec fn posts_view(ps: Seq<Post>) -> Seq<PostView> {
    ps.map_values(|p: Post| p@)
}

/// Every identifier in `ps` is below `bound`.
pub open spec fn ids_bounded(ps: Seq<PostView>, bound: int) -> bool {
    forall|i: int| 0 <= i < ps.len() ==> ps[i].id < bound
}

/// The identifiers in `ps` are pairwise distinct.
pub open spec fn ids_distinct(ps: Seq<PostView>) -> bool {
    forall|i: int, j: int| 0 <= i < j < ps.len() ==> ps[i].id != ps[j].id
}

/// Every row's slug is the one derived from its title.
pub open spec fn slugs_derived(ps: Seq<PostView>) -> bool {
    forall|i: int| 0 <= i < ps.len() ==> ps[i].slug == slug_of(ps[i].title)
}

/// The rows of `ps` whose slug equals `s`, in stored order.
pub open spec fn spec_find_by_slug(ps: Seq<PostView>, s: Seq<char>) -> Seq<PostView> {
    ps.filter(|p: PostView| p.slug == s)
}

/// The rows of `ps` whose identifier equals `id`, in stored order.
pub open spec fn spec_find_by_id(ps: Seq<PostView>, id: int) -> Seq<PostView> {
    ps.filter(|p: PostView| p.id == id)
}

/// Appending one row extends the slug filter by that row exactly when its
/// slug matches.
proof fn lemma_find_by_slug_snoc(ps: Seq<PostView>, x: PostView, s: Seq<char>)
    ensures
        spec_find_by_slug(ps.push(x), s) =~= spec_find_by_slug(ps, s) + (if x.slug == s {
            seq![x]
        } else {
            Seq::<PostView>::empty()
        }),
{
    reveal(Seq::filter);
    assert(ps.push(x).drop_last() =~= ps);
    assert(ps.push(x).last() == x);
}

/// Appending one row extends the identifier filter by that row exactly when
/// its identifier matches.
proof fn lemma_find_by_id_snoc(ps: Seq<PostView>, x: PostView, id: int)
    ensures
        spec_find_by_id(ps.push(x), id) =~= spec_find_by_id(ps, id) + (if x.id == id {
            seq![x]
        } else {
            Seq::<PostView>::empty()
        }),
{
    reveal(Seq::filter);
    assert(ps.push(x).drop_last() =~= ps);
    assert(ps.push(x).last() == x);
}

/// Looking up a slug that no stored post carries yields the empty sequence;
/// an absent slug is never an error.
pub proof fn lemma_find_by_slug_no_match(ps: Seq<PostView>, s: Seq<char>)
    requires
        forall|i: int| 0 <= i < ps.len() ==> ps[i].slug != s,
    ensures
        spec_find_by_slug(ps, s) =~= Seq::<PostView>::empty(),
    decreases ps.len(),
{
    reveal(Seq::filter);
    if ps.len() > 0 {
        assert(forall|i: int| 0 <= i < ps.drop_last().len() ==> ps.drop_last()[i] == ps[i]);
        lemma_find_by_slug_no_match(ps.drop_last(), s);
        assert(ps.last() == ps[ps.len() - 1]);
    }
}

/// Looking up an identifier that no stored post carries yields the empty
/// sequence.
pub proof fn lemma_find_by_id_no_match(ps: Seq<PostView>, id: int)
    requires
        forall|i: int| 0 <= i < ps.len() ==> ps[i].id != id,
    ensures
        spec_find_by_id(ps, id) =~= Seq::<PostView>::empty(),
    decreases ps.len(),
{
    reveal(Seq::filter);
    if ps.len() > 0 {
        assert(forall|i: int| 0 <= i < ps.drop_last().len() ==> ps.drop_last()[i] == ps[i]);
        lemma_find_by_id_no_match(ps.drop_last(), id);
        assert(ps.last() == ps[ps.len() - 1]);
    }
}

/// Creation followed by a lookup of the assigned identifier finds exactly
/// the created post: when every row of `pre` carries an identifier below
/// `p.id` — as holds of a store that just assigned `p.id` — the identifier
/// filter on `pre` extended by `p` is the singleton `p`.
pub proof fn lemma_create_then_find_by_id(pre: Seq<PostView>, p: PostView)
    requires
        ids_bounded(pre, p.id),
    ensures
        spec_find_by_id(pre.push(p), p.id) =~= seq![p],
{
    lemma_find_by_id_no_match(pre, p.id);
    lemma_find_by_id_snoc(pre, p, p.id);
}

/// Successive creations receive distinct identifiers and neither post is
/// lost or duplicated: after a store with rows `s0` assigns `p1` and then
/// `p2` its next two identifiers, the two identifiers differ, both rows
/// stand in the final store, and each identifier lookup finds exactly its
/// own post.
pub proof fn lemma_creates_distinct_ids(
    s0: StoreView,
    s1: StoreView,
    s2: StoreView,
    p1: PostView,
    p2: PostView,
)
    requires
        ids_bounded(s0.posts, s0.next_id),
        p1.id == s0.next_id,
        s1.posts == s0.posts.push(p1),
        s1.next_id == s0.next_id + 1,
        p2.id == s1.next_id,
        s2.posts == s1.posts.push(p2),
        s2.next_id == s1.next_id + 1,
    ensures
        p1.id != p2.id,
        s2.posts.len() == s0.posts.len() + 2,
        spec_find_by_id(s2.posts, p1.id) =~= seq![p1],
        spec_find_by_id(s2.posts, p2.id) =~= seq![p2],
{
    lemma_create_then_find_by_id(s0.posts, p1);
    lemma_find_by_id_snoc(s1.posts, p2, p1.id);
    assert(spec_find_by_id(s2.posts, p1.id) =~= seq![p1] + Seq::<PostView>::empty());
    assert(ids_bounded(s1.posts, s1.next_id));
    lemma_create_then_find_by_id(s1.posts, p2);
}

/// The in-memory `posts` table: rows in insertion order plus the identifier
/// counter.
pub struct PostStore {
    posts: Vec<Post>,
    next_id: i32,
}

impl View for PostStore {
    type V = StoreView;

    closed spec fn view(&self) -> StoreView {
        StoreView { posts: posts_view(self.posts@), next_id: self.next_id as int }
    }
}

impl PostStore {
    /// Well-formedness: the counter is positive, stored identifiers are below
    /// the counter and pairwise distinct, and every slug is derived from its
    /// row's title.
    pub open spec fn wf(self) -> bool {
        &&& 1 <= self@.next_id
        &&& ids_bounded(self@.posts, self@.next_id)
        &&& ids_distinct(self@.posts)
        &&& slugs_derived(self@.posts)
    }

    /// An empty store whose first insertion will receive identifier 1.
    pub fn new() -> (s: PostStore)
        ensures
            s.wf(),
            s@.posts.len() == 0,
            s@.next_id == 1,
    {
        PostStore { posts: Vec::new(), next_id: 1 }
    }

    /// Returns every stored post, in insertion order.
    pub fn list_all(&self) -> (r: Vec<Post>)
        ensures
            posts_view(r@) == self@.posts,
    {
        let ghost pv = posts_view(self.posts@);
        let mut r: Vec<Post> = Vec::new();
        let n = self.posts.len();
        let mut idx: usize = 0;
        while idx < n
            invariant
                n == self.posts.len(),
                pv == posts_view(self.posts@),
                0 <= idx <= n,
                posts_view(r@) =~= pv.take(idx as int),
            decreases n - idx,
        {
            let p = self.posts[idx].clone();
            r.push(p);
            proof {
                assert(pv.take(idx + 1) =~= pv.take(idx as int).push(pv[idx as int]));
                assert(posts_view(r@) =~= pv.take(idx + 1));
            }
            idx = idx + 1;
        }
        proof {
            assert(pv.take(n as int) =~= pv);
        }
        r
    }

    /// Returns the stored posts whose slug equals `slug`, in insertion
    /// order. A slug that no post carries yields the empty vector: absence is
    /// not an error.
    pub fn find_by_slug(&self, slug: &String) -> (r: Vec<Post>)
        ensures
            posts_view(r@) == spec_find_by_slug(self@.posts, slug@),
            (forall|i: int| 0 <= i < self@.posts.len() ==> self@.posts[i].slug != slug@)
                ==> r@.len() == 0,
    {
        let ghost pv = posts_view(self.posts@);
        let mut r: Vec<Post> = Vec::new();
        let n = self.posts.len();
        let mut idx: usize = 0;
        while idx < n
            invariant
                n == self.posts.len(),
                pv == posts_view(self.posts@),
                0 <= idx <= n,
                posts_view(r@) =~= spec_find_by_slug(pv.take(idx as int), slug@),
            decreases n - idx,
        {
            proof {
                lemma_find_by_slug_snoc(pv.take(idx as int), pv[idx as int], slug@);
                assert(pv.take(idx + 1) =~= pv.take(idx as int).push(pv[idx as int]));
            }
            if self.posts[idx].slug == *slug {
                let p = self.posts[idx].clone();
                r.push(p);
            }
            idx = idx + 1;
        }
        proof {
            assert(pv.take(n as int) =~= pv);
            if forall|i: int| 0 <= i < pv.len() ==> pv[i].slug != slug@ {
                lemma_find_by_slug_no_match(pv, slug@);
            }
        }
        r
    }

    /// Returns the stored posts whose identifier equals `id`, in insertion
    /// order.
    pub fn find_by_id(&self, id: i32) -> (r: Vec<Post>)
        ensures
            posts_view(r@) == spec_find_by_id(self@.posts, id as int),
    {
        let ghost pv = posts_view(self.posts@);
        let mut r: Vec<Post> = Vec::new();
        let n = self.posts.len();
        let mut idx: usize = 0;
        while idx < n
            invariant
                n == self.posts.len(),
                pv == posts_view(self.posts@),
                0 <= idx <= n,
                posts_view(r@) =~= spec_find_by_id(pv.take(idx as int), id as int),
            decreases n - idx,
        {
            proof {
                lemma_find_by_id_snoc(pv.take(idx as int), pv[idx as int], id as int);
                assert(pv.take(idx + 1) =~= pv.take(idx as int).push(pv[idx as int]));
            }
            if self.posts[idx].id == id {
                let p = self.posts[idx].clone();
                r.push(p);
            }
            idx = idx + 1;
        }
        proof {
            assert(pv.take(n as int) =~= pv);
        }
        r
    }

    /// Inserts a staged row whose slug was already derived from its title,
    /// assigns it the next identifier, and returns the persisted post.
    /// Insertion is refused only when the identifier space is exhausted.
    pub(crate) fn insert_row(&mut self, row: NewPost<'_>) -> (r: Result<Post, RepoError>)
        requires
            old(self).wf(),
            row@.slug == slug_of(row@.title),
        ensures
            final(self).wf(),
            r is Ok <==> old(self)@.next_id < i32::MAX,
            match r {
                Ok(p) => {
                    &&& p@.id == old(self)@.next_id
                    &&& p@.title == row@.title
                    &&& p@.slug == row@.slug
                    &&& p@.body == row@.body
                    &&& final(self)@.posts == old(self)@.posts.push(p@)
                    &&& final(self)@.next_id == old(self)@.next_id + 1
                },
                Err(e) => {
                    &&& e == RepoError::DataAccessError
                    &&& final(self)@ == old(self)@
                },
            },
    {
        if self.next_id == i32::MAX {
            return Err(RepoError::DataAccessError);
        }
        let p = Post {
            id: self.next_id,
            title: row.title.to_owned(),
            slug: row.slug.to_owned(),
            body: row.body.to_owned(),
        };
        let stored = p.clone();
        let ghost pre = self@;
        self.posts.push(stored);
        self.next_id = self.next_id + 1;
        proof {
            assert(self@.posts =~= pre.posts.push(p@));
            assert(ids_bounded(self@.posts, self@.next_id));
            assert(ids_distinct(self@.posts)) by {
                assert(forall|i: int|
                    0 <= i < pre.posts.len() ==> self@.posts[i].id < pre.next_id);
            }
            assert(slugs_derived(self@.posts));
        }
        Ok(p)
    }

    /// Creates a post from a title and a body: computes the slug from the
    /// title, inserts the row, and returns the persisted post with its
    /// system-assigned identifier and computed slug.
    pub fn create(&mut self, title: &String, body: &String) -> (r: Result<Post, RepoError>)
        requires
            old(self).wf(),
        ensures
            final(self).wf(),
            r is Ok <==> old(self)@.next_id < i32::MAX,
            match r {
                Ok(p) => {
                    &&& p@.id == old(self)@.next_id
                    &&& p@.title == title@
                    &&& p@.slug == slug_of(title@)
                    &&& p@.body == body@
                    &&& final(self)@.posts == old(self)@.posts.push(p@)
                    &&& final(self)@.next_id == old(self)@.next_id + 1
                },
                Err(e) => {
                    &&& e == RepoError::DataAccessError
                    &&& final(self)@ == old(self)@
                },
            },
    {
        let slug_text = Post::slugify(title);
        let row = NewPost { title: title.as_str(), body: body.as_str(), slug: slug_text.as_str() };
        self.insert_row(row)
    }

    /// An empty store that resumes identifier assignment at `next_id`, as
    /// when the backing table already holds rows up to `next_id - 1`.
    pub fn with_next_id(next_id: i32) -> (s: PostStore)
        requires
            next_id >= 1,
        ensures
            s.wf(),
            s@.posts.len() == 0,
            s@.next_id == next_id as int,
    {
        PostStore { posts: Vec::new(), next_id }
    }
}

} // verus!
