use blog_store::errors::ApiError;
use blog_store::handlers;
use blog_store::models::{validate_create_post, validate_update_post, MAX_TITLE_CHARS};
use blog_store::{BlogData, Comment, CreateComment, CreatePost, Post, UpdatePost};

fn new_post(title: &str, content: &str, author: &str) -> CreatePost {
    CreatePost {
        title: title.to_string(),
        content: content.to_string(),
        author: author.to_string(),
    }
}

fn new_comment(post_id: u128, author: &str, content: &str) -> CreateComment {
    CreateComment {
        post_id,
        author: author.to_string(),
        content: content.to_string(),
    }
}

fn validation_message(e: &ApiError) -> String {
    match e {
        ApiError::ValidationError(m) => m.clone(),
        other => panic!("expected a validation error, got {:?}", other),
    }
}

#[test]
fn create_then_get_post_has_no_comments() {
    let mut data = BlogData::new();
    let post = handlers::create_post(&mut data, new_post("Hello", "World", "Alice")).unwrap();
    assert_eq!(post.title, "Hello");
    assert_eq!(post.content, "World");
    assert_eq!(post.author, "Alice");
    assert_eq!(post.created_at, post.updated_at);
    let (got, comments) = handlers::get_post(&data, post.id).unwrap();
    assert_eq!(got.id, post.id);
    assert_eq!(got.title, "Hello");
    assert!(comments.is_empty());
    assert_eq!(handlers::get_posts(&data).len(), 1);
}

#[test]
fn comment_on_deleted_post_is_not_found() {
    let mut data = BlogData::new();
    let post = handlers::create_post(&mut data, new_post("Hello", "World", "Alice")).unwrap();
    handlers::delete_post(&mut data, post.id).unwrap();
    let r = handlers::create_comment(&mut data, post.id, new_comment(post.id, "Bob", "Nice"));
    let e = r.unwrap_err();
    assert!(matches!(e, ApiError::PostNotFound));
    assert_eq!(e.status_code(), 404);
    assert!(data.comments.is_empty());
}

#[test]
fn title_of_201_characters_is_rejected() {
    let mut data = BlogData::new();
    let title = "a".repeat(201);
    let e = handlers::create_post(&mut data, new_post(&title, "World", "Alice")).unwrap_err();
    assert_eq!(e.status_code(), 400);
    let m = validation_message(&e);
    assert!(m.contains("max 200"));
    assert!(data.posts.is_empty());
}

#[test]
fn title_of_200_characters_is_accepted() {
    let mut data = BlogData::new();
    let title = "a".repeat(MAX_TITLE_CHARS);
    assert!(handlers::create_post(&mut data, new_post(&title, "World", "Alice")).is_ok());
}

#[test]
fn title_length_counts_characters_not_bytes() {
    let title = "\u{e9}".repeat(200);
    assert!(validate_create_post(&new_post(&title, "c", "a")).is_ok());
    let title = "\u{e9}".repeat(201);
    let e = validate_create_post(&new_post(&title, "c", "a")).unwrap_err();
    assert_eq!(validation_message(&e), "Title too long (max 200 characters)");
}

#[test]
fn blank_fields_are_rejected_in_order() {
    let e = validate_create_post(&new_post("  \t", "", "")).unwrap_err();
    assert_eq!(validation_message(&e), "Title cannot be empty");
    let e = validate_create_post(&new_post("t", " \n ", "")).unwrap_err();
    assert_eq!(validation_message(&e), "Content cannot be empty");
    let e = validate_create_post(&new_post("t", "c", "   ")).unwrap_err();
    assert_eq!(validation_message(&e), "Author cannot be empty");
    assert!(validate_create_post(&new_post(" t ", " c ", " a ")).is_ok());
}

#[test]
fn update_validation_checks_present_fields() {
    let none = UpdatePost { title: None, content: None };
    assert!(validate_update_post(&none).is_ok());
    let u = UpdatePost { title: Some("   ".to_string()), content: None };
    assert_eq!(validation_message(&validate_update_post(&u).unwrap_err()), "Title cannot be empty");
    let u = UpdatePost { title: Some("x".repeat(201)), content: None };
    assert_eq!(
        validation_message(&validate_update_post(&u).unwrap_err()),
        "Title too long (max 200 characters)"
    );
    let u = UpdatePost { title: None, content: Some("".to_string()) };
    assert_eq!(validation_message(&validate_update_post(&u).unwrap_err()), "Content cannot be empty");
}

#[test]
fn comment_validation_rejects_blank_fields() {
    let mut data = BlogData::new();
    let post = handlers::create_post(&mut data, new_post("Hello", "World", "Alice")).unwrap();
    let e = handlers::create_comment(&mut data, post.id, new_comment(post.id, " ", "hi")).unwrap_err();
    assert_eq!(validation_message(&e), "Author cannot be empty");
    let e = handlers::create_comment(&mut data, post.id, new_comment(post.id, "Bob", "")).unwrap_err();
    assert_eq!(validation_message(&e), "Content cannot be empty");
    assert!(data.comments.is_empty());
}

#[test]
fn delete_post_cascades_to_its_comments_only() {
    let mut data = BlogData::new();
    let p1 = handlers::create_post(&mut data, new_post("One", "c", "a")).unwrap();
    let p2 = handlers::create_post(&mut data, new_post("Two", "c", "a")).unwrap();
    assert_ne!(p1.id, p2.id);
    handlers::create_comment(&mut data, p1.id, new_comment(p1.id, "x", "1")).unwrap();
    handlers::create_comment(&mut data, p2.id, new_comment(p2.id, "y", "2")).unwrap();
    handlers::create_comment(&mut data, p1.id, new_comment(p1.id, "z", "3")).unwrap();
    handlers::create_comment(&mut data, p2.id, new_comment(p2.id, "w", "4")).unwrap();
    assert_eq!(data.comments.len(), 4);
    handlers::delete_post(&mut data, p1.id).unwrap();
    assert_eq!(data.comments.len(), 2);
    let left: Vec<String> = data.comments.iter().map(|c| c.content.clone()).collect();
    assert_eq!(left, vec!["2".to_string(), "4".to_string()]);
    assert!(matches!(handlers::get_post(&data, p1.id), Err(ApiError::PostNotFound)));
    assert_eq!(handlers::get_comments(&data, p2.id).unwrap().len(), 2);
    assert!(matches!(handlers::delete_post(&mut data, p1.id), Err(ApiError::PostNotFound)));
}

#[test]
fn comment_on_missing_post_leaves_comments_unchanged() {
    let mut data = BlogData::new();
    let post = handlers::create_post(&mut data, new_post("Hello", "World", "Alice")).unwrap();
    handlers::create_comment(&mut data, post.id, new_comment(post.id, "Bob", "hi")).unwrap();
    let missing = post.id.wrapping_add(1);
    let c = Comment::new(new_comment(missing, "Eve", "spam"));
    assert!(matches!(data.create_comment(c), Err(ApiError::PostNotFound)));
    assert_eq!(data.comments.len(), 1);
    assert_eq!(data.comments[0].content, "hi");
    assert!(matches!(handlers::get_comments(&data, missing), Err(ApiError::PostNotFound)));
}

#[test]
fn empty_update_keeps_fields_and_refreshes_time() {
    let mut data = BlogData::new();
    let post = Post::new_at(new_post("Hello", "World", "Alice"), 7, 1_000);
    data.create_post(post).unwrap();
    let p = data.update_post_at(7, None, None, 2_000).unwrap();
    assert_eq!(p.title, "Hello");
    assert_eq!(p.content, "World");
    assert_eq!(p.created_at, 1_000);
    assert_eq!(p.updated_at, 2_000);
    let stored = data.get_post(7).unwrap();
    assert_eq!(stored.updated_at, 2_000);
    let p = handlers::update_post(&mut data, 7, UpdatePost { title: None, content: None }).unwrap();
    assert_eq!(p.title, "Hello");
    assert!(p.updated_at > 2_000);
}

#[test]
fn update_replaces_present_fields() {
    let mut data = BlogData::new();
    data.create_post(Post::new_at(new_post("Hello", "World", "Alice"), 9, 5)).unwrap();
    let u = UpdatePost { title: Some("Bye".to_string()), content: None };
    let p = handlers::update_post(&mut data, 9, u).unwrap();
    assert_eq!(p.title, "Bye");
    assert_eq!(p.content, "World");
    assert_eq!(data.get_post(9).unwrap().title, "Bye");
    let mut q = Post::new_at(new_post("a", "b", "c"), 1, 10);
    q.update_at(UpdatePost { title: None, content: Some("d".to_string()) }, 11);
    assert_eq!(q.title, "a");
    assert_eq!(q.content, "d");
    assert_eq!(q.updated_at, 11);
    assert!(matches!(
        handlers::update_post(&mut data, 10, UpdatePost { title: None, content: None }),
        Err(ApiError::PostNotFound)
    ));
}

#[test]
fn listing_comments_twice_gives_equal_results() {
    let mut data = BlogData::new();
    let post = handlers::create_post(&mut data, new_post("Hello", "World", "Alice")).unwrap();
    handlers::create_comment(&mut data, post.id, new_comment(post.id, "a", "1")).unwrap();
    handlers::create_comment(&mut data, post.id, new_comment(post.id, "b", "2")).unwrap();
    let first = data.get_post_comments(post.id).unwrap();
    let second = data.get_post_comments(post.id).unwrap();
    assert_eq!(first.len(), 2);
    assert_eq!(first.len(), second.len());
    for (x, y) in first.iter().zip(second.iter()) {
        assert_eq!(x.id, y.id);
        assert_eq!(x.content, y.content);
        assert_eq!(x.author, y.author);
    }
    assert_eq!(first[0].content, "1");
    assert_eq!(first[1].content, "2");
}

#[test]
fn delete_comment_removes_it_or_reports_not_found() {
    let mut data = BlogData::new();
    let post = handlers::create_post(&mut data, new_post("Hello", "World", "Alice")).unwrap();
    let c1 = handlers::create_comment(&mut data, post.id, new_comment(post.id, "a", "1")).unwrap();
    let c2 = handlers::create_comment(&mut data, post.id, new_comment(post.id, "b", "2")).unwrap();
    assert_ne!(c1.id, c2.id);
    handlers::delete_comment(&mut data, c1.id).unwrap();
    assert_eq!(data.comments.len(), 1);
    assert_eq!(data.comments[0].id, c2.id);
    let e = handlers::delete_comment(&mut data, c1.id).unwrap_err();
    assert!(matches!(e, ApiError::CommentNotFound));
    assert_eq!(e.status_code(), 404);
}

#[test]
fn status_codes_follow_error_kinds() {
    assert_eq!(ApiError::PostNotFound.status_code(), 404);
    assert_eq!(ApiError::CommentNotFound.status_code(), 404);
    assert_eq!(ApiError::ValidationError("x".to_string()).status_code(), 400);
    assert_eq!(ApiError::StorageError("x".to_string()).status_code(), 500);
    assert_eq!(ApiError::InternalError.status_code(), 500);
}

#[test]
fn new_entities_get_fresh_ids_and_times() {
    let a = Post::new(new_post("t", "c", "a"));
    let b = Post::new(new_post("t", "c", "a"));
    assert_ne!(a.id, b.id);
    assert!(a.created_at > 0);
    assert_eq!(a.created_at, a.updated_at);
    let c = Comment::new(new_comment(a.id, "x", "y"));
    assert_eq!(c.post_id, a.id);
    assert_eq!(c.created_at, c.updated_at);
    let d = a.duplicate();
    assert_eq!(d.id, a.id);
    assert_eq!(d.title, a.title);
}

#[test]
fn update_moves_time_forward_when_clock_lags() {
    let mut q = Post::new_at(new_post("a", "b", "c"), 1, 500);
    q.update_at(UpdatePost { title: None, content: None }, 400);
    assert_eq!(q.updated_at, 501);
    q.update_at(UpdatePost { title: None, content: None }, 501);
    assert_eq!(q.updated_at, 502);
    assert_eq!(q.created_at, 500);
    let mut data = BlogData::new();
    data.create_post(Post::new_at(new_post("a", "b", "c"), 3, 1_000)).unwrap();
    let p = data.update_post_at(3, Some("t".to_string()), None, 1_000).unwrap();
    assert_eq!(p.updated_at, 1_001);
    assert_eq!(p.title, "t");
}

#[test]
fn update_of_post_at_largest_time_is_refused() {
    let mut data = BlogData::new();
    data.create_post(Post::new_at(new_post("a", "b", "c"), 4, i64::MAX)).unwrap();
    let r = data.update_post_at(4, Some("t".to_string()), None, 0);
    assert!(matches!(r, Err(ApiError::InternalError)));
    assert_eq!(data.get_post(4).unwrap().title, "a");
}

#[test]
fn creating_a_post_with_a_used_id_is_refused() {
    let mut data = BlogData::new();
    data.create_post(Post::new_at(new_post("first", "b", "c"), 5, 1)).unwrap();
    let r = data.create_post(Post::new_at(new_post("second", "b", "c"), 5, 2));
    assert!(matches!(r, Err(ApiError::InternalError)));
    assert_eq!(data.get_post(5).unwrap().title, "first");
    assert_eq!(data.posts.len(), 1);
}

#[test]
fn all_posts_are_copied() {
    let mut data = BlogData::new();
    data.create_post(Post::new_at(new_post("x", "b", "c"), 10, 1)).unwrap();
    data.create_post(Post::new_at(new_post("y", "b", "c"), 11, 1)).unwrap();
    let all = data.get_all_posts();
    assert_eq!(all.len(), 2);
    assert_eq!(all[&10].title, "x");
    assert_eq!(all[&11].title, "y");
}

#[test]
fn non_ascii_white_space_counts_as_blank() {
    let e = validate_create_post(&new_post("\u{3000}\u{a0}", "c", "a")).unwrap_err();
    assert_eq!(validation_message(&e), "Title cannot be empty");
}

#[test]
fn creating_a_comment_with_a_used_id_is_refused() {
    let mut data = BlogData::new();
    data.create_post(Post::new_at(new_post("a", "b", "c"), 20, 1)).unwrap();
    let first = Comment::new_at(new_comment(20, "x", "first"), 30, 2);
    let second = Comment::new_at(new_comment(20, "y", "second"), 30, 3);
    data.create_comment(first).unwrap();
    assert!(matches!(data.create_comment(second), Err(ApiError::InternalError)));
    assert_eq!(data.comments.len(), 1);
    assert_eq!(data.comments[0].content, "first");
    let missing = Comment::new_at(new_comment(21, "z", "orphan"), 30, 4);
    assert!(matches!(data.create_comment(missing), Err(ApiError::PostNotFound)));
}
