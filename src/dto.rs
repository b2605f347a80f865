use vstd::prelude::*;

use crate::repository::RepoError;

verus! {

/// The body of a request that creates a task.
pub struct CreateTaskDto {
    pub title: String,
    pub content: String,
}

/// The body of a request that updates a task: an absent field is left as it
/// is, a present one, even empty, replaces the stored text.
pub struct UpdateTaskDto {
    pub title: Option<String>,
    pub content: Option<String>,
}

/// The body of a request that creates a task, in its schema form.
pub struct CreateTaskSchema {
    pub title: String,
    pub content: String,
}

/// The HTTP status that reports each kind of failure.
pub open spec fn status_of(e: RepoError) -> u16 {
    match e {
        RepoError::NotFound => 404,
        RepoError::Conflict => 409,
        RepoError::PersistenceUnavailable => 500,
    }
}

/// The HTTP status for a failed operation.
pub fn failure_status(e: RepoError) -> (r: u16)
    ensures
        r == status_of(e),
{
    match e {
        RepoError::NotFound => 404,
        RepoError::Conflict => 409,
        RepoError::PersistenceUnavailable => 500,
    }
}

} // verus!
