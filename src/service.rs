use vstd::prelude::*;

use crate::repository::{created, deleted, lists, text_of, updated, views, RepoError, TaskRepository};
use crate::task::{Task, TaskView};

verus! {

/// The seam that application code depends on: each operation is handed to
/// the repository, and its outcome, success or failure, comes back unchanged.
pub struct TaskService<R: TaskRepository> {
    repository: R,
}

impl<R: TaskRepository> TaskService<R> {
    /// The tasks that the underlying repository holds.
    pub closed spec fn contents(&self) -> Map<u128, TaskView> {
        self.repository.contents()
    }

    /// Every identifier that the underlying repository has handed out.
    pub closed spec fn issued(&self) -> Set<u128> {
        self.repository.issued()
    }

    /// The underlying repository cannot fail to reach its data.
    pub closed spec fn available(&self) -> bool {
        self.repository.available()
    }

    /// The underlying repository is well formed.
    pub closed spec fn wf(&self) -> bool {
        self.repository.wf()
    }

    /// A service over `repository`.
    pub fn new(repository: R) -> (r: Self)
        ensures
            r.contents() == repository.contents(),
            r.issued() == repository.issued(),
            r.available() == repository.available(),
            r.wf() == repository.wf(),
    {
        TaskService { repository }
    }

    /// Creates a task through the repository.
    pub fn create_task(&mut self, title: String, content: String) -> (r: Result<Task, RepoError>)
        requires
            old(self).wf(),
        ensures
            final(self).wf(),
            match r {
                Ok(t) => created(old(self).contents(), final(self).contents(), t@, title@, content@)
                    && !old(self).issued().contains(t.id) && final(self).issued() == old(self).issued().insert(
                    t.id,
                ),
                Err(e) => e != RepoError::NotFound && final(self).contents() == old(self).contents()
                    && final(self).issued() == old(self).issued(),
            },
            final(self).available() == old(self).available(),
            old(self).available() ==> r is Ok || r == Err::<Task, RepoError>(RepoError::Conflict),
            old(self).available() && old(self).issued() == Set::<u128>::empty() ==> r is Ok,
    {
        self.repository.create(title, content)
    }

    /// Lists every task through the repository.
    pub fn get_tasks(&self) -> (r: Result<Vec<Task>, RepoError>)
        requires
            self.wf(),
        ensures
            match r {
                Ok(v) => lists(views(v@), self.contents()),
                Err(e) => e == RepoError::PersistenceUnavailable,
            },
            self.available() ==> r is Ok,
    {
        self.repository.get_all()
    }

    /// Deletes the task `id` through the repository.
    pub fn delete_task(&mut self, id: u128) -> (r: Result<Task, RepoError>)
        requires
            old(self).wf(),
        ensures
            final(self).wf(),
            final(self).issued() == old(self).issued(),
            match r {
                Ok(t) => deleted(old(self).contents(), final(self).contents(), id, t@),
                Err(e) => final(self).contents() == old(self).contents() && (e == RepoError::NotFound
                    ==> !old(self).contents().contains_key(id)),
            },
            final(self).available() == old(self).available(),
            !old(self).contents().contains_key(id) ==> r == Err::<Task, RepoError>(RepoError::NotFound) || r
                == Err::<Task, RepoError>(RepoError::PersistenceUnavailable),
            old(self).available() ==> (r is Ok <==> old(self).contents().contains_key(id)),
            old(self).available() && !old(self).contents().contains_key(id) ==> r == Err::<Task, RepoError>(
                RepoError::NotFound,
            ),
    {
        self.repository.delete(id)
    }

    /// Updates the task `id` through the repository.
    pub fn update_task(&mut self, id: u128, title: Option<String>, content: Option<String>) -> (r: Result<
        Task,
        RepoError,
    >)
        requires
            old(self).wf(),
        ensures
            final(self).wf(),
            final(self).issued() == old(self).issued(),
            match r {
                Ok(t) => updated(
                    old(self).contents(),
                    final(self).contents(),
                    id,
                    text_of(title),
                    text_of(content),
                    t@,
                ),
                Err(e) => final(self).contents() == old(self).contents() && (e == RepoError::NotFound
                    ==> !old(self).contents().contains_key(id)),
            },
            final(self).available() == old(self).available(),
            !old(self).contents().contains_key(id) ==> r == Err::<Task, RepoError>(RepoError::NotFound) || r
                == Err::<Task, RepoError>(RepoError::PersistenceUnavailable),
            old(self).available() ==> (r is Ok <==> old(self).contents().contains_key(id)),
            old(self).available() && !old(self).contents().contains_key(id) ==> r == Err::<Task, RepoError>(
                RepoError::NotFound,
            ),
    {
        self.repository.update(id, title, content)
    }
}

} // verus!
