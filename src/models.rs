use vstd::prelude::*;
use crate::errors::ApiError;
use vstd::std_specs::iter::IteratorSpec;

verus! {

broadcast use vstd::string::group_string_axioms;

/// The longest title accepted, in characters.
pub const MAX_TITLE_CHARS: usize = 200;

/// A blog entry. `id` is the 128-bit value of a UUID; the two times are
/// microseconds since the Unix epoch.
#[derive(Clone, Debug)]
pub struct Post {
    pub id: u128,
    pub title: String,
    pub content: String,
    pub author: String,
    pub created_at: i64,
    pub updated_at: i64,
}

/// The fields a client gives to create a post.
#[derive(Debug)]
pub struct CreatePost {
    pub title: String,
    pub content: String,
    pub author: String,
}

/// A partial update of a post: each present field replaces the stored one.
#[derive(Debug)]
pub struct UpdatePost {
    pub title: Option<String>,
    pub content: Option<String>,
}

/// A reply attached to the post `post_id`.
#[derive(Clone, Debug)]
pub struct Comment {
    pub id: u128,
    pub post_id: u128,
    pub content: String,
    pub author: String,
    pub created_at: i64,
    pub updated_at: i64,
}

/// The fields a client gives to create a comment.
#[derive(Debug)]
pub struct CreateComment {
    pub post_id: u128,
    pub content: String,
    pub author: String,
}

/// The characters with the Unicode `White_Space` property (25 code points).
pub open spec fn is_white_space(c: char) -> bool {
    let n = c as u32;
    (0x09 <= n <= 0x0D) || n == 0x20 || n == 0x85 || n == 0xA0 || n == 0x1680
        || (0x2000 <= n <= 0x200A) || n == 0x2028 || n == 0x2029 || n == 0x202F
        || n == 0x205F || n == 0x3000
}

/// `s` without its leading white space.
pub open spec fn trim_start_of(s: Seq<char>) -> Seq<char>
    decreases s.len(),
{
    if s.len() > 0 && is_white_space(s[0]) {
        trim_start_of(s.drop_first())
    } else {
        s
    }
}

/// `s` without its trailing white space.
pub open spec fn trim_end_of(s: Seq<char>) -> Seq<char>
    decreases s.len(),
{
    if s.len() > 0 && is_white_space(s.last()) {
        trim_end_of(s.drop_last())
    } else {
        s
    }
}

/// `s` without its leading and trailing white space.
pub open spec fn trimmed(s: Seq<char>) -> Seq<char> {
    trim_end_of(trim_start_of(s))
}

/// Relies on `str::trim`, which removes the leading and trailing characters
/// that have the Unicode `White_Space` property.
#[verifier::external_body]
fn trim(s: &str) -> (r: &str)
    ensures
        r@ == trimmed(s@),
{
    s.trim()
}

/// Whether `s` has more than `k` characters; reads at most `k + 1` of them.
fn longer_than(s: &str, k: usize) -> (r: bool)
    requires
        k < usize::MAX,
    ensures
        r == (s@.len() > k),
{
    let mut it = s.chars();
    let mut n: usize = 0;
    loop
        invariant
            n <= k,
            n + it.remaining().len() == s@.len(),
        decreases s@.len() - n,
    {
        match it.next() {
            Some(_) => {
                if n == k {
                    return true;
                }
                n += 1;
            },
            None => {
                return false;
            },
        }
    }
}

/// Relies on `uuid::Uuid::new_v4` and `Uuid::as_u128`: a random identifier.
#[verifier::external_body]
pub(crate) fn new_id() -> (r: u128) {
    uuid::Uuid::new_v4().as_u128()
}

/// Relies on `chrono::Utc::now` and `DateTime::timestamp_micros`: the clock.
#[verifier::external_body]
pub(crate) fn now_micros() -> (r: i64) {
    chrono::Utc::now().timestamp_micros()
}

/// A text is blank when nothing is left of it after trimming.
pub open spec fn blank(s: Seq<char>) -> bool {
    trimmed(s).len() == 0
}

/// The first problem found with the fields of a new post, if any.
pub open spec fn create_post_problem(title: Seq<char>, content: Seq<char>, author: Seq<char>) -> Option<Seq<char>> {
    if blank(title) {
        Some("Title cannot be empty"@)
    } else if blank(content) {
        Some("Content cannot be empty"@)
    } else if blank(author) {
        Some("Author cannot be empty"@)
    } else if title.len() > MAX_TITLE_CHARS {
        Some("Title too long (max 200 characters)"@)
    } else {
        None
    }
}

/// The first problem found with the present fields of an update, if any.
pub open spec fn update_post_problem(title: Option<Seq<char>>, content: Option<Seq<char>>) -> Option<Seq<char>> {
    if title is Some && blank(title->0) {
        Some("Title cannot be empty"@)
    } else if title is Some && title->0.len() > MAX_TITLE_CHARS {
        Some("Title too long (max 200 characters)"@)
    } else if content is Some && blank(content->0) {
        Some("Content cannot be empty"@)
    } else {
        None
    }
}

/// The first problem found with the fields of a new comment, if any.
pub open spec fn create_comment_problem(author: Seq<char>, content: Seq<char>) -> Option<Seq<char>> {
    if blank(author) {
        Some("Author cannot be empty"@)
    } else if blank(content) {
        Some("Content cannot be empty"@)
    } else {
        None
    }
}

/// The characters of an optional text.
pub open spec fn opt_view(o: Option<String>) -> Option<Seq<char>> {
    match o {
        Some(s) => Some(s@),
        None => None,
    }
}

/// `Ok` exactly when there is no problem, else the validation error that
/// carries the problem's message.
pub open spec fn reports(r: Result<(), ApiError>, problem: Option<Seq<char>>) -> bool {
    match r {
        Ok(()) => problem is None,
        Err(ApiError::ValidationError(m)) => problem == Some(m@),
        Err(_) => false,
    }
}

fn validation_error(m: &str) -> (r: ApiError)
    ensures
        r matches ApiError::ValidationError(s) && s@ == m@,
{
    ApiError::ValidationError(m.to_owned())
}

fn is_blank(s: &String) -> (r: bool)
    ensures
        r == blank(s@),
{
    trim(s.as_str()).is_empty()
}

/// Checks the fields of a new post: none blank, the title at most
/// `MAX_TITLE_CHARS` characters.
pub fn validate_create_post(p: &CreatePost) -> (r: Result<(), ApiError>)
    ensures
        reports(r, create_post_problem(p.title@, p.content@, p.author@)),
{
    if is_blank(&p.title) {
        return Err(validation_error("Title cannot be empty"));
    }
    if is_blank(&p.content) {
        return Err(validation_error("Content cannot be empty"));
    }
    if is_blank(&p.author) {
        return Err(validation_error("Author cannot be empty"));
    }
    if longer_than(p.title.as_str(), MAX_TITLE_CHARS) {
        return Err(validation_error("Title too long (max 200 characters)"));
    }
    Ok(())
}

/// Checks the present fields of an update: a title neither blank nor too
/// long, a content not blank.
pub fn validate_update_post(u: &UpdatePost) -> (r: Result<(), ApiError>)
    ensures
        reports(r, update_post_problem(opt_view(u.title), opt_view(u.content))),
{
    if let Some(title) = &u.title {
        if is_blank(title) {
            return Err(validation_error("Title cannot be empty"));
        }
        if longer_than(title.as_str(), MAX_TITLE_CHARS) {
            return Err(validation_error("Title too long (max 200 characters)"));
        }
    }
    if let Some(content) = &u.content {
        if is_blank(content) {
            return Err(validation_error("Content cannot be empty"));
        }
    }
    Ok(())
}

/// Checks the fields of a new comment: neither author nor content blank.
pub fn validate_create_comment(c: &CreateComment) -> (r: Result<(), ApiError>)
    ensures
        reports(r, create_comment_problem(c.author@, c.content@)),
{
    if is_blank(&c.author) {
        return Err(validation_error("Author cannot be empty"));
    }
    if is_blank(&c.content) {
        return Err(validation_error("Content cannot be empty"));
    }
    Ok(())
}

/// The time an update records: the clock reading when it is later than the
/// previous time, else one microsecond after the previous time, so that the
/// recorded time always moves forward.
pub open spec fn next_time(prev: i64, reading: i64) -> i64 {
    if reading > prev {
        reading
    } else {
        (prev + 1) as i64
    }
}

/// The post that an update makes of `p` with the clock reading `now`.
pub open spec fn updated(p: Post, title: Option<String>, content: Option<String>, now: i64) -> Post {
    Post {
        title: match title {
            Some(t) => t,
            None => p.title,
        },
        content: match content {
            Some(c) => c,
            None => p.content,
        },
        updated_at: next_time(p.updated_at, now),
        ..p
    }
}

impl Post {
    /// A post with the given identity, made at `now`.
    pub fn new_at(create_post: CreatePost, id: u128, now: i64) -> (r: Post)
        ensures
            r.id == id,
            r.title == create_post.title,
            r.content == create_post.content,
            r.author == create_post.author,
            r.created_at == now,
            r.updated_at == now,
    {
        Post {
            id,
            title: create_post.title,
            content: create_post.content,
            author: create_post.author,
            created_at: now,
            updated_at: now,
        }
    }

    /// A post with a fresh random identifier, made now.
    pub fn new(create_post: CreatePost) -> (r: Post)
        ensures
            r.title == create_post.title,
            r.content == create_post.content,
            r.author == create_post.author,
            r.created_at == r.updated_at,
    {
        let id = new_id();
        let now = now_micros();
        Post::new_at(create_post, id, now)
    }

    /// Applies an update with the clock reading `now`: each present field
    /// replaces the stored one, and `updated_at` moves forward in any case
    /// (to `now` when that is later, else by one microsecond).
    pub fn update_at(&mut self, update_post: UpdatePost, now: i64)
        requires
            old(self).updated_at < i64::MAX,
        ensures
            *final(self) == updated(*old(self), update_post.title, update_post.content, now),
            final(self).updated_at > old(self).updated_at,
    {
        if let Some(title) = update_post.title {
            self.title = title;
        }
        if let Some(content) = update_post.content {
            self.content = content;
        }
        if now > self.updated_at {
            self.updated_at = now;
        } else {
            self.updated_at = self.updated_at + 1;
        }
    }

    /// Applies an update at the present time. It never fails, and
    /// `updated_at` becomes strictly later than it was.
    pub fn update(&mut self, update_post: UpdatePost) -> (r: Result<(), ApiError>)
        requires
            old(self).updated_at < i64::MAX,
        ensures
            r is Ok,
            *final(self) == updated(*old(self), update_post.title, update_post.content, final(self).updated_at),
            final(self).updated_at > old(self).updated_at,
    {
        let now = now_micros();
        self.update_at(update_post, now);
        Ok(())
    }

    /// A copy of this post, field for field.
    pub fn duplicate(&self) -> (r: Post)
        ensures
            r == *self,
    {
        Post {
            id: self.id,
            title: self.title.clone(),
            content: self.content.clone(),
            author: self.author.clone(),
            created_at: self.created_at,
            updated_at: self.updated_at,
        }
    }
}

impl Comment {
    /// A comment with the given identity, made at `now`.
    pub fn new_at(create_comment: CreateComment, id: u128, now: i64) -> (r: Comment)
        ensures
            r.id == id,
            r.post_id == create_comment.post_id,
            r.content == create_comment.content,
            r.author == create_comment.author,
            r.created_at == now,
            r.updated_at == now,
    {
        Comment {
            id,
            post_id: create_comment.post_id,
            content: create_comment.content,
            author: create_comment.author,
            created_at: now,
            updated_at: now,
        }
    }

    /// A comment with a fresh random identifier, made now.
    pub fn new(create_comment: CreateComment) -> (r: Comment)
        ensures
            r.post_id == create_comment.post_id,
            r.content == create_comment.content,
            r.author == create_comment.author,
            r.created_at == r.updated_at,
    {
        let id = new_id();
        let now = now_micros();
        Comment::new_at(create_comment, id, now)
    }

    /// A copy of this comment, field for field.
    pub fn duplicate(&self) -> (r: Comment)
        ensures
            r == *self,
    {
        Comment {
            id: self.id,
            post_id: self.post_id,
            content: self.content.clone(),
            author: self.author.clone(),
            created_at: self.created_at,
            updated_at: self.updated_at,
        }
    }
}

/// Update semantics: an update with neither field present keeps title,
/// content, author, identity and creation time, and makes `updated_at`
/// strictly later, whatever the clock reads.
pub proof fn lemma_empty_update_keeps_fields(p: Post, now: i64)
    requires
        p.updated_at < i64::MAX,
    ensures
        updated(p, None, None, now).id == p.id,
        updated(p, None, None, now).title == p.title,
        updated(p, None, None, now).content == p.content,
        updated(p, None, None, now).author == p.author,
        updated(p, None, None, now).created_at == p.created_at,
        updated(p, None, None, now).updated_at > p.updated_at,
{
}

} // verus!
