use vstd::prelude::*;
use vstd::std_specs::hash::spec_hash_map_iter;
use vstd::std_specs::iter::IteratorSpec;
use std::collections::HashMap;
use crate::errors::ApiError;
use crate::models::{now_micros, updated, Comment, Post, UpdatePost};

verus! {

broadcast use vstd::std_specs::hash::group_hash_axioms;

/// The comments in `s` that belong to the post `post_id`, in order.
pub open spec fn comments_of(s: Seq<Comment>, post_id: u128) -> Seq<Comment> {
    s.filter(|c: Comment| c.post_id == post_id)
}

/// The comments in `s` that belong to any post but `post_id`, in order.
pub open spec fn comments_not_of(s: Seq<Comment>, post_id: u128) -> Seq<Comment> {
    s.filter(|c: Comment| c.post_id != post_id)
}

/// Whether some comment in `s` has the identifier `id`.
pub open spec fn comment_id_used(s: Seq<Comment>, id: u128) -> bool {
    exists|j: int| 0 <= j < s.len() && s[j].id == id
}

/// The whole state of the blog: posts by identifier, and comments in the
/// order they were added.
pub struct BlogData {
    pub posts: HashMap<u128, Post>,
    pub comments: Vec<Comment>,
}

impl BlogData {
    /// Each post is filed under its own identifier.
    pub open spec fn wf(&self) -> bool {
        forall|k: u128| #[trigger] self.posts@.contains_key(k) ==> self.posts@[k].id == k
    }

    /// An empty store.
    pub fn new() -> (r: BlogData)
        ensures
            r.wf(),
            r.posts@ == Map::<u128, Post>::empty(),
            r.comments@ == Seq::<Comment>::empty(),
    {
        BlogData { posts: HashMap::new(), comments: Vec::new() }
    }

    /// A copy of every post, by identifier, made entry by entry.
    pub fn get_all_posts(&self) -> (r: HashMap<u128, Post>)
        ensures
            r@ == self.posts@,
    {
        let mut out: HashMap<u128, Post> = HashMap::new();
        let ghost v = spec_hash_map_iter(&self.posts).remaining();
        for kv in it: self.posts.iter()
            invariant
                it.seq() == v,
                v == spec_hash_map_iter(&self.posts).remaining(),
                forall|j: int| 0 <= j < it.index() ==> #[trigger] out@.contains_key(*v[j].0),
                forall|k: u128| #[trigger] out@.contains_key(k) ==> self.posts@.contains_key(k)
                    && out@[k] == self.posts@[k],
        {
            let (k, p) = kv;
            proof {
                assert(self.posts@.contains_key(*it.seq()[it.index() as int].0));
            }
            out.insert(*k, p.duplicate());
        }
        proof {
            assert forall|k: u128| #[trigger] self.posts@.contains_key(k) implies out@.contains_key(k) by {
                assert(v.contains((&k, &self.posts@[k])));
                let j = choose|j: int| 0 <= j < v.len() && v[j] == (&k, &self.posts@[k]);
                assert(*v[j].0 == k);
            }
            assert(out@ =~= self.posts@);
        }
        out
    }

    /// The post `id`, or `PostNotFound` when there is none.
    pub fn get_post(&self, id: u128) -> (r: Result<Post, ApiError>)
        ensures
            self.posts@.contains_key(id) <==> r is Ok,
            r matches Ok(p) ==> p == self.posts@[id],
            r matches Err(e) ==> e is PostNotFound,
    {
        match self.posts.get(&id) {
            Some(p) => Ok(p.duplicate()),
            None => Err(ApiError::PostNotFound),
        }
    }

    /// Files `post` under its identifier and hands it back. Identifiers are
    /// unique: when a post already has this one, `InternalError`, and then
    /// nothing changes.
    pub fn create_post(&mut self, post: Post) -> (r: Result<Post, ApiError>)
        requires
            old(self).wf(),
        ensures
            final(self).wf(),
            final(self).comments@ == old(self).comments@,
            !old(self).posts@.contains_key(post.id) <==> r is Ok,
            r matches Ok(p) ==> p == post && final(self).posts@ == old(self).posts@.insert(post.id, post),
            r matches Err(e) ==> e is InternalError && final(self).posts@ == old(self).posts@,
    {
        let id = post.id;
        if self.posts.contains_key(&id) {
            return Err(ApiError::InternalError);
        }
        let copy = post.duplicate();
        self.posts.insert(id, copy);
        Ok(post)
    }

    /// Updates the post `id` with the clock reading `now`: each present
    /// field replaces the stored one and `updated_at` moves strictly
    /// forward (see `next_time`). `PostNotFound` when there is no such post;
    /// `InternalError` when its `updated_at` is already the largest time
    /// there is. On an error nothing changes.
    pub fn update_post_at(&mut self, id: u128, title: Option<String>, content: Option<String>, now: i64) -> (r: Result<Post, ApiError>)
        requires
            old(self).wf(),
        ensures
            final(self).wf(),
            final(self).comments@ == old(self).comments@,
            (old(self).posts@.contains_key(id) && old(self).posts@[id].updated_at < i64::MAX) <==> r is Ok,
            r matches Ok(p) ==> p == updated(old(self).posts@[id], title, content, now)
                && p.updated_at > old(self).posts@[id].updated_at
                && final(self).posts@ == old(self).posts@.insert(id, p),
            r is Err ==> final(self).posts@ == old(self).posts@,
            r matches Err(e) ==> (e is PostNotFound && !old(self).posts@.contains_key(id))
                || (e is InternalError && old(self).posts@.contains_key(id)),
    {
        let mut post = match self.get_post(id) {
            Ok(p) => p,
            Err(e) => return Err(e),
        };
        if post.updated_at == i64::MAX {
            return Err(ApiError::InternalError);
        }
        post.update_at(UpdatePost { title, content }, now);
        let stored = post.duplicate();
        self.posts.insert(id, stored);
        Ok(post)
    }

    /// Updates the post `id` at the present time; see `update_post_at`.
    /// The returned post's `updated_at` is strictly later than before.
    pub fn update_post(&mut self, id: u128, title: Option<String>, content: Option<String>) -> (r: Result<Post, ApiError>)
        requires
            old(self).wf(),
        ensures
            final(self).wf(),
            final(self).comments@ == old(self).comments@,
            (old(self).posts@.contains_key(id) && old(self).posts@[id].updated_at < i64::MAX) <==> r is Ok,
            r matches Ok(p) ==> p == updated(old(self).posts@[id], title, content, p.updated_at)
                && p.updated_at > old(self).posts@[id].updated_at
                && final(self).posts@ == old(self).posts@.insert(id, p),
            r is Err ==> final(self).posts@ == old(self).posts@,
            r matches Err(e) ==> (e is PostNotFound && !old(self).posts@.contains_key(id))
                || (e is InternalError && old(self).posts@.contains_key(id)),
    {
        let now = now_micros();
        self.update_post_at(id, title, content, now)
    }

    /// Removes the post `id` and, with it, every comment that belongs to
    /// it; the other comments keep their order. `PostNotFound` when there
    /// is no such post, and then nothing changes.
    pub fn delete_post(&mut self, id: u128) -> (r: Result<(), ApiError>)
        requires
            old(self).wf(),
        ensures
            final(self).wf(),
            old(self).posts@.contains_key(id) <==> r is Ok,
            r is Ok ==> final(self).posts@ == old(self).posts@.remove(id)
                && final(self).comments@ == comments_not_of(old(self).comments@, id),
            r matches Err(e) ==> e is PostNotFound && final(self).posts@ == old(self).posts@
                && final(self).comments@ == old(self).comments@,
    {
        match self.posts.remove(&id) {
            None => return Err(ApiError::PostNotFound),
            Some(_) => {},
        }
        let mut kept: Vec<Comment> = Vec::new();
        let n = self.comments.len();
        let mut i: usize = 0;
        while i < n
            invariant
                n == self.comments@.len(),
                0 <= i <= n,
                self.comments@ == old(self).comments@,
                kept@ == comments_not_of(self.comments@.subrange(0, i as int), id),
            decreases n - i,
        {
            let c = &self.comments[i];
            proof {
                let s = self.comments@;
                assert(s.subrange(0, i + 1).drop_last() == s.subrange(0, i as int));
                reveal(Seq::filter);
            }
            if c.post_id != id {
                kept.push(c.duplicate());
            }
            i += 1;
        }
        proof {
            assert(self.comments@.subrange(0, n as int) == self.comments@);
        }
        self.comments = kept;
        Ok(())
    }

    /// The comments of the post `post_id`, in the order they were added.
    /// `PostNotFound` when there is no such post.
    pub fn get_post_comments(&self, post_id: u128) -> (r: Result<Vec<Comment>, ApiError>)
        ensures
            self.posts@.contains_key(post_id) <==> r is Ok,
            r matches Ok(v) ==> v@ == comments_of(self.comments@, post_id),
            r matches Err(e) ==> e is PostNotFound,
    {
        if !self.posts.contains_key(&post_id) {
            return Err(ApiError::PostNotFound);
        }
        let mut found: Vec<Comment> = Vec::new();
        let n = self.comments.len();
        let mut i: usize = 0;
        while i < n
            invariant
                n == self.comments@.len(),
                0 <= i <= n,
                found@ == comments_of(self.comments@.subrange(0, i as int), post_id),
            decreases n - i,
        {
            let c = &self.comments[i];
            proof {
                let s = self.comments@;
                assert(s.subrange(0, i + 1).drop_last() == s.subrange(0, i as int));
                reveal(Seq::filter);
            }
            if c.post_id == post_id {
                found.push(c.duplicate());
            }
            i += 1;
        }
        proof {
            assert(self.comments@.subrange(0, n as int) == self.comments@);
        }
        Ok(found)
    }

    /// Appends `comment` when the post it names exists and no comment has
    /// its identifier yet, and hands it back. `PostNotFound` when the post
    /// is missing; `InternalError` when the identifier is in use. On an
    /// error nothing changes.
    pub fn create_comment(&mut self, comment: Comment) -> (r: Result<Comment, ApiError>)
        requires
            old(self).wf(),
        ensures
            final(self).wf(),
            final(self).posts@ == old(self).posts@,
            (old(self).posts@.contains_key(comment.post_id)
                && !comment_id_used(old(self).comments@, comment.id)) <==> r is Ok,
            r matches Ok(c) ==> c == comment && final(self).comments@ == old(self).comments@.push(comment),
            r is Err ==> final(self).comments@ == old(self).comments@,
            r matches Err(e) ==> (e is PostNotFound && !old(self).posts@.contains_key(comment.post_id))
                || (e is InternalError && old(self).posts@.contains_key(comment.post_id)
                && comment_id_used(old(self).comments@, comment.id)),
    {
        if !self.posts.contains_key(&comment.post_id) {
            return Err(ApiError::PostNotFound);
        }
        let n = self.comments.len();
        let mut i: usize = 0;
        while i < n
            invariant
                n == self.comments@.len(),
                0 <= i <= n,
                self.comments@ == old(self).comments@,
                self.posts@ == old(self).posts@,
                self.wf(),
                self.posts@.contains_key(comment.post_id),
                forall|k: int| 0 <= k < i ==> self.comments@[k].id != comment.id,
            decreases n - i,
        {
            if self.comments[i].id == comment.id {
                proof {
                    assert(old(self).comments@[i as int].id == comment.id);
                }
                return Err(ApiError::InternalError);
            }
            i += 1;
        }
        self.comments.push(comment.duplicate());
        Ok(comment)
    }

    /// Removes the first comment whose identifier is `id`. `CommentNotFound`
    /// when there is none, and then nothing changes.
    pub fn delete_comment(&mut self, id: u128) -> (r: Result<(), ApiError>)
        requires
            old(self).wf(),
        ensures
            final(self).wf(),
            final(self).posts@ == old(self).posts@,
            (exists|j: int| 0 <= j < old(self).comments@.len() && old(self).comments@[j].id == id) <==> r is Ok,
            r is Ok ==> exists|j: int|
                0 <= j < old(self).comments@.len()
                && old(self).comments@[j].id == id
                && (forall|k: int| 0 <= k < j ==> old(self).comments@[k].id != id)
                && final(self).comments@ == old(self).comments@.remove(j),
            r matches Err(e) ==> e is CommentNotFound && final(self).comments@ == old(self).comments@,
    {
        let n = self.comments.len();
        let mut i: usize = 0;
        while i < n
            invariant
                n == self.comments@.len(),
                0 <= i <= n,
                self.comments@ == old(self).comments@,
                self.posts@ == old(self).posts@,
                self.wf(),
                forall|k: int| 0 <= k < i ==> self.comments@[k].id != id,
            decreases n - i,
        {
            if self.comments[i].id == id {
                proof {
                    assert(old(self).comments@[i as int].id == id);
                }
                self.comments.remove(i);
                return Ok(());
            }
            i += 1;
        }
        Err(ApiError::CommentNotFound)
    }
}

/// Cascade: removing the comments of `post_id` takes away exactly as many
/// comments as that post had, leaves none of them, and leaves the comments
/// of every other post as they were, in order.
pub proof fn lemma_cascade(s: Seq<Comment>, post_id: u128, other: u128)
    requires
        other != post_id,
    ensures
        comments_not_of(s, post_id).len() + comments_of(s, post_id).len() == s.len(),
        comments_of(comments_not_of(s, post_id), post_id).len() == 0,
        comments_of(comments_not_of(s, post_id), other) == comments_of(s, other),
    decreases s.len(),
{
    reveal(Seq::filter);
    if s.len() > 0 {
        let t = s.drop_last();
        let a = s.last();
        lemma_cascade(t, post_id, other);
        let kept = comments_not_of(t, post_id);
        if a.post_id != post_id {
            assert(kept.push(a).drop_last() == kept);
            assert(kept.push(a).last() == a);
        }
    }
}

} // verus!
