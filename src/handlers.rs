use vstd::prelude::*;
use std::collections::HashMap;
use crate::errors::ApiError;
use crate::models::{
    create_comment_problem, create_post_problem, opt_view, update_post_problem, updated,
    validate_create_comment, validate_create_post, validate_update_post, Comment, CreateComment,
    CreatePost, Post, UpdatePost,
};
use crate::storage::{comment_id_used, comments_not_of, comments_of, BlogData};

verus! {

/// Every post, by identifier.
pub fn get_posts(data: &BlogData) -> (r: HashMap<u128, Post>)
    ensures
        r@ == data.posts@,
{
    data.get_all_posts()
}

/// The post `id` together with its comments, in the order they were added.
pub fn get_post(data: &BlogData, id: u128) -> (r: Result<(Post, Vec<Comment>), ApiError>)
    ensures
        data.posts@.contains_key(id) <==> r is Ok,
        r matches Ok((p, cs)) ==> p == data.posts@[id] && cs@ == comments_of(data.comments@, id),
        r matches Err(e) ==> e is PostNotFound,
{
    let post = match data.get_post(id) {
        Ok(p) => p,
        Err(e) => return Err(e),
    };
    let comments = match data.get_post_comments(id) {
        Ok(cs) => cs,
        Err(e) => return Err(e),
    };
    Ok((post, comments))
}

/// Checks the fields of a new post and, when they pass, files a fresh post
/// made of them. `InternalError` when the fresh identifier is already in
/// use. On an error nothing changes.
pub fn create_post(data: &mut BlogData, new_post: CreatePost) -> (r: Result<Post, ApiError>)
    requires
        old(data).wf(),
    ensures
        final(data).wf(),
        final(data).comments@ == old(data).comments@,
        r is Ok ==> create_post_problem(new_post.title@, new_post.content@, new_post.author@) is None,
        (create_post_problem(new_post.title@, new_post.content@, new_post.author@) is None
            && old(data).posts@ == Map::<u128, Post>::empty()) ==> r is Ok,
        r matches Ok(p) ==> p.title == new_post.title && p.content == new_post.content
            && p.author == new_post.author && p.created_at == p.updated_at
            && !old(data).posts@.contains_key(p.id)
            && final(data).posts@ == old(data).posts@.insert(p.id, p),
        r is Err ==> final(data).posts@ == old(data).posts@,
        r matches Err(ApiError::ValidationError(m)) ==>
            create_post_problem(new_post.title@, new_post.content@, new_post.author@) == Some(m@),
        r matches Err(e) ==> e is ValidationError || (e is InternalError
            && create_post_problem(new_post.title@, new_post.content@, new_post.author@) is None),
{
    match validate_create_post(&new_post) {
        Ok(()) => {},
        Err(e) => return Err(e),
    }
    let post = Post::new(new_post);
    data.create_post(post)
}

/// Checks the present fields of an update and, when they pass, applies it
/// to the post `id` at the present time; `updated_at` becomes strictly
/// later. `InternalError` when the post's time can move no further.
pub fn update_post(data: &mut BlogData, id: u128, update: UpdatePost) -> (r: Result<Post, ApiError>)
    requires
        old(data).wf(),
    ensures
        final(data).wf(),
        final(data).comments@ == old(data).comments@,
        (update_post_problem(opt_view(update.title), opt_view(update.content)) is None
            && old(data).posts@.contains_key(id) && old(data).posts@[id].updated_at < i64::MAX) <==> r is Ok,
        r matches Ok(p) ==> p == updated(old(data).posts@[id], update.title, update.content, p.updated_at)
            && p.updated_at > old(data).posts@[id].updated_at
            && final(data).posts@ == old(data).posts@.insert(id, p),
        r is Err ==> final(data).posts@ == old(data).posts@,
        r matches Err(ApiError::ValidationError(m)) ==>
            update_post_problem(opt_view(update.title), opt_view(update.content)) == Some(m@),
        r matches Err(e) ==> e is ValidationError || (e is PostNotFound
            && update_post_problem(opt_view(update.title), opt_view(update.content)) is None
            && !old(data).posts@.contains_key(id)) || (e is InternalError
            && update_post_problem(opt_view(update.title), opt_view(update.content)) is None
            && old(data).posts@.contains_key(id)),
{
    match validate_update_post(&update) {
        Ok(()) => {},
        Err(e) => return Err(e),
    }
    data.update_post(id, update.title, update.content)
}

/// Removes the post `id` and every comment of it.
pub fn delete_post(data: &mut BlogData, id: u128) -> (r: Result<(), ApiError>)
    requires
        old(data).wf(),
    ensures
        final(data).wf(),
        old(data).posts@.contains_key(id) <==> r is Ok,
        r is Ok ==> final(data).posts@ == old(data).posts@.remove(id)
            && final(data).comments@ == comments_not_of(old(data).comments@, id),
        r matches Err(e) ==> e is PostNotFound && final(data).posts@ == old(data).posts@
            && final(data).comments@ == old(data).comments@,
{
    data.delete_post(id)
}

/// The comments of the post `post_id`, in the order they were added.
pub fn get_comments(data: &BlogData, post_id: u128) -> (r: Result<Vec<Comment>, ApiError>)
    ensures
        data.posts@.contains_key(post_id) <==> r is Ok,
        r matches Ok(v) ==> v@ == comments_of(data.comments@, post_id),
        r matches Err(e) ==> e is PostNotFound,
{
    data.get_post_comments(post_id)
}

/// Checks the fields of a new comment and, when they pass and the post
/// `post_id` exists, appends a fresh comment on it made of them.
/// `InternalError` when the fresh identifier is already in use. The
/// `post_id` inside `new_comment` is not read: the path names the post.
pub fn create_comment(data: &mut BlogData, post_id: u128, new_comment: CreateComment) -> (r: Result<Comment, ApiError>)
    requires
        old(data).wf(),
    ensures
        final(data).wf(),
        final(data).posts@ == old(data).posts@,
        r is Ok ==> create_comment_problem(new_comment.author@, new_comment.content@) is None
            && old(data).posts@.contains_key(post_id),
        (create_comment_problem(new_comment.author@, new_comment.content@) is None
            && old(data).posts@.contains_key(post_id) && old(data).comments@.len() == 0) ==> r is Ok,
        r matches Ok(c) ==> c.post_id == post_id && c.content == new_comment.content
            && c.author == new_comment.author && c.created_at == c.updated_at
            && !comment_id_used(old(data).comments@, c.id)
            && final(data).comments@ == old(data).comments@.push(c),
        r is Err ==> final(data).comments@ == old(data).comments@,
        r matches Err(ApiError::ValidationError(m)) ==>
            create_comment_problem(new_comment.author@, new_comment.content@) == Some(m@),
        r matches Err(e) ==> e is ValidationError || (e is PostNotFound
            && create_comment_problem(new_comment.author@, new_comment.content@) is None
            && !old(data).posts@.contains_key(post_id)) || (e is InternalError
            && create_comment_problem(new_comment.author@, new_comment.content@) is None
            && old(data).posts@.contains_key(post_id)),
{
    match validate_create_comment(&new_comment) {
        Ok(()) => {},
        Err(e) => return Err(e),
    }
    let comment = Comment::new(CreateComment {
        post_id,
        author: new_comment.author,
        content: new_comment.content,
    });
    data.create_comment(comment)
}

/// Removes the comment `id`.
pub fn delete_comment(data: &mut BlogData, id: u128) -> (r: Result<(), ApiError>)
    requires
        old(data).wf(),
    ensures
        final(data).wf(),
        final(data).posts@ == old(data).posts@,
        (exists|j: int| 0 <= j < old(data).comments@.len() && old(data).comments@[j].id == id) <==> r is Ok,
        r is Ok ==> exists|j: int|
            0 <= j < old(data).comments@.len()
            && old(data).comments@[j].id == id
            && (forall|k: int| 0 <= k < j ==> old(data).comments@[k].id != id)
            && final(data).comments@ == old(data).comments@.remove(j),
        r matches Err(e) ==> e is CommentNotFound && final(data).comments@ == old(data).comments@,
{
    data.delete_comment(id)
}

} // verus!
