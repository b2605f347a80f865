use vstd::prelude::*;

use crate::repository::RepoError;
use crate::task::Task;

verus! {

/// How a statement against a relational store failed, as far as the
/// classification of failures cares.
#[derive(Debug, Clone, Copy, PartialEq, Eq, Structural)]
pub enum StoreFailure {
    /// The statement ran and matched no row.
    NoRow,
    /// A uniqueness constraint refused the row.
    UniqueViolation,
    /// Anything else: no connection, a timeout, a refused statement.
    Other,
}

/// The kind that each store failure is reported as.
pub open spec fn kind_of(f: StoreFailure) -> RepoError {
    match f {
        StoreFailure::NoRow => RepoError::NotFound,
        StoreFailure::UniqueViolation => RepoError::Conflict,
        StoreFailure::Other => RepoError::PersistenceUnavailable,
    }
}

/// Classifies a store failure.
pub fn classify(f: StoreFailure) -> (r: RepoError)
    ensures
        r == kind_of(f),
{
    match f {
        StoreFailure::NoRow => RepoError::NotFound,
        StoreFailure::UniqueViolation => RepoError::Conflict,
        StoreFailure::Other => RepoError::PersistenceUnavailable,
    }
}

/// The result of a statement that returns at most one row: the row itself,
/// `NotFound` when no row matched, and the classified failure otherwise.
pub fn settle_row(outcome: Result<Option<Task>, StoreFailure>) -> (r: Result<Task, RepoError>)
    ensures
        match outcome {
            Ok(Some(row)) => r matches Ok(t) && t@ == row@,
            Ok(None) => r == Err::<Task, RepoError>(RepoError::NotFound),
            Err(f) => r == Err::<Task, RepoError>(kind_of(f)),
        },
{
    match outcome {
        Ok(Some(row)) => Ok(row),
        Ok(None) => Err(RepoError::NotFound),
        Err(f) => Err(classify(f)),
    }
}

/// The result of a statement that inserts one row and returns it. An insert
/// that comes back without its row is a store failure, never `NotFound`.
pub fn settle_insert(outcome: Result<Option<Task>, StoreFailure>) -> (r: Result<Task, RepoError>)
    ensures
        match outcome {
            Ok(Some(row)) => r matches Ok(t) && t@ == row@,
            Ok(None) => r == Err::<Task, RepoError>(RepoError::PersistenceUnavailable),
            Err(StoreFailure::NoRow) => r == Err::<Task, RepoError>(RepoError::PersistenceUnavailable),
            Err(f) => r == Err::<Task, RepoError>(kind_of(f)),
        },
        r != Err::<Task, RepoError>(RepoError::NotFound),
{
    match outcome {
        Ok(Some(row)) => Ok(row),
        Ok(None) => Err(RepoError::PersistenceUnavailable),
        Err(StoreFailure::NoRow) => Err(RepoError::PersistenceUnavailable),
        Err(f) => Err(classify(f)),
    }
}

/// The result of a statement that returns many rows: all of them, or the
/// classified failure.
pub fn settle_rows(outcome: Result<Vec<Task>, StoreFailure>) -> (r: Result<Vec<Task>, RepoError>)
    ensures
        match outcome {
            Ok(rows) => r matches Ok(v) && v@ == rows@,
            Err(f) => r == Err::<Vec<Task>, RepoError>(kind_of(f)),
        },
{
    match outcome {
        Ok(rows) => Ok(rows),
        Err(f) => Err(classify(f)),
    }
}

} // verus!
