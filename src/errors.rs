use vstd::prelude::*;

verus! {

/// The kinds of failure that the store and its callers report.
#[derive(Debug)]
pub enum ApiError {
    PostNotFound,
    CommentNotFound,
    ValidationError(String),
    StorageError(String),
    InternalError,
}

/// The HTTP status that goes with each kind of failure.
pub open spec fn status_of(e: ApiError) -> u16 {
    match e {
        ApiError::PostNotFound | ApiError::CommentNotFound => 404,
        ApiError::ValidationError(_) => 400,
        ApiError::StorageError(_) | ApiError::InternalError => 500,
    }
}

impl ApiError {
    /// Not-found kinds answer 404, validation 400, storage and internal 500.
    pub fn status_code(&self) -> (r: u16)
        ensures
            r == status_of(*self),
    {
        match self {
            ApiError::PostNotFound | ApiError::CommentNotFound => 404,
            ApiError::ValidationError(_) => 400,
            ApiError::StorageError(_) | ApiError::InternalError => 500,
        }
    }
}

} // verus!
