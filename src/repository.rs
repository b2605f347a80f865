use vstd::prelude::*;

use crate::task::{Task, TaskView};

verus! {

/// The failures that a repository reports, already classified.
#[derive(Debug, Clone, Copy, PartialEq, Eq, Structural)]
pub enum RepoError {
    /// The store could not be reached or the statement could not run.
    PersistenceUnavailable,
    /// No task carries the requested identifier.
    NotFound,
    /// The identifier chosen for a new task is already taken.
    Conflict,
}

/// The views of a sequence of tasks.
pub open spec fn views(s: Seq<Task>) -> Seq<TaskView> {
    s.map_values(|t: Task| t@)
}

/// The optional replacement text that an update carries.
pub open spec fn text_of(o: Option<String>) -> Option<Seq<char>> {
    match o {
        Some(s) => Some(s@),
        None => None,
    }
}

/// `listing` holds every task of `store` once, with its stored value, and nothing else.
pub open spec fn lists(listing: Seq<TaskView>, store: Map<u128, TaskView>) -> bool {
    &&& forall|i: int, j: int|
        0 <= i < j < listing.len() ==> #[trigger] listing[i].id != #[trigger] listing[j].id
    &&& forall|i: int|
        0 <= i < listing.len() ==> store.contains_key(#[trigger] listing[i].id) && store[listing[i].id]
            == listing[i]
    &&& forall|k: u128|
        #[trigger] store.contains_key(k) ==> exists|i: int| 0 <= i < listing.len() && #[trigger] listing[i].id == k
}

/// A task after an update: each supplied field replaces the stored one, the
/// others keep their value; identifier and creation time never change.
pub open spec fn merged(t: TaskView, title: Option<Seq<char>>, content: Option<Seq<char>>) -> TaskView {
    TaskView {
        id: t.id,
        title: match title {
            Some(s) => s,
            None => t.title,
        },
        content: match content {
            Some(s) => s,
            None => t.content,
        },
        created_at: t.created_at,
    }
}

/// `t` was created from `title` and `content` under a fresh identifier,
/// taking the store from `before` to `after`.
pub open spec fn created(
    before: Map<u128, TaskView>,
    after: Map<u128, TaskView>,
    t: TaskView,
    title: Seq<char>,
    content: Seq<char>,
) -> bool {
    &&& t.title == title
    &&& t.content == content
    &&& !before.contains_key(t.id)
    &&& after == before.insert(t.id, t)
}

/// The task `id` was merged with the supplied fields, giving `t`.
pub open spec fn updated(
    before: Map<u128, TaskView>,
    after: Map<u128, TaskView>,
    id: u128,
    title: Option<Seq<char>>,
    content: Option<Seq<char>>,
    t: TaskView,
) -> bool {
    &&& before.contains_key(id)
    &&& t.id == id
    &&& t == merged(before[id], title, content)
    &&& after == before.insert(id, t)
}

/// The task `id`, whose last state was `t`, was removed.
pub open spec fn deleted(before: Map<u128, TaskView>, after: Map<u128, TaskView>, id: u128, t: TaskView) -> bool {
    &&& before.contains_key(id)
    &&& t.id == id
    &&& t == before[id]
    &&& after == before.remove(id)
}

/// A store of tasks, whatever keeps them. Its state is the map from each
/// identifier to the task that carries it.
pub trait TaskRepository: Sized {
    /// The tasks held, by identifier.
    spec fn contents(&self) -> Map<u128, TaskView>;

    /// Every identifier that the store has handed out, including those of
    /// tasks deleted since.
    spec fn issued(&self) -> Set<u128>;

    /// The store cannot fail to reach its data: each operation then ends in
    /// success or in the one outcome that the data itself decides
    /// (`NotFound`, or `Conflict` for a drawn identifier already handed out).
    /// A store keeps this property for as long as it lives.
    spec fn available(&self) -> bool;

    /// The store's own invariant.
    spec fn wf(&self) -> bool;

    /// Every task held is stored under its own identifier, one that the
    /// store handed out.
    proof fn lemma_held_tasks_keyed(&self)
        requires
            self.wf(),
        ensures
            forall|k: u128| #[trigger] self.contents().contains_key(k) ==> self.contents()[k].id == k
                && self.issued().contains(k),
    ;

    /// Stores a new task with a fresh identifier and the current time.
    fn create(&mut self, title: String, content: String) -> (r: Result<Task, RepoError>)
        requires
            old(self).wf(),
        ensures
            final(self).wf(),
            match r {
                Ok(t) => created(old(self).contents(), final(self).contents(), t@, title@, content@)
                    && !old(self).issued().contains(t.id) && final(self).issued() == old(self).issued().insert(
                    t.id,
                ),
                Err(e) => e != RepoError::NotFound && final(self).contents() == old(self).contents()
                    && final(self).issued() == old(self).issued(),
            },
            final(self).available() == old(self).available(),
            old(self).available() ==> r is Ok || r == Err::<Task, RepoError>(RepoError::Conflict),
            old(self).available() && old(self).issued() == Set::<u128>::empty() ==> r is Ok,
    ;

    /// Every task held, once each, in an order of the store's choosing.
    fn get_all(&self) -> (r: Result<Vec<Task>, RepoError>)
        requires
            self.wf(),
        ensures
            match r {
                Ok(v) => lists(views(v@), self.contents()),
                Err(e) => e == RepoError::PersistenceUnavailable,
            },
            self.available() ==> r is Ok,
    ;

    /// Removes the task `id` and hands back its last state.
    fn delete(&mut self, id: u128) -> (r: Result<Task, RepoError>)
        requires
            old(self).wf(),
        ensures
            final(self).wf(),
            final(self).issued() == old(self).issued(),
            match r {
                Ok(t) => deleted(old(self).contents(), final(self).contents(), id, t@),
                Err(e) => final(self).contents() == old(self).contents() && (e == RepoError::NotFound
                    ==> !old(self).contents().contains_key(id)),
            },
            final(self).available() == old(self).available(),
            !old(self).contents().contains_key(id) ==> r == Err::<Task, RepoError>(RepoError::NotFound) || r
                == Err::<Task, RepoError>(RepoError::PersistenceUnavailable),
            old(self).available() ==> (r is Ok <==> old(self).contents().contains_key(id)),
            old(self).available() && !old(self).contents().contains_key(id) ==> r == Err::<Task, RepoError>(
                RepoError::NotFound,
            ),
    ;

    /// Replaces the supplied fields of the task `id` and hands back its new state.
    fn update(&mut self, id: u128, title: Option<String>, content: Option<String>) -> (r: Result<
        Task,
        RepoError,
    >)
        requires
            old(self).wf(),
        ensures
            final(self).wf(),
            final(self).issued() == old(self).issued(),
            match r {
                Ok(t) => updated(
                    old(self).contents(),
                    final(self).contents(),
                    id,
                    text_of(title),
                    text_of(content),
                    t@,
                ),
                Err(e) => final(self).contents() == old(self).contents() && (e == RepoError::NotFound
                    ==> !old(self).contents().contains_key(id)),
            },
            final(self).available() == old(self).available(),
            !old(self).contents().contains_key(id) ==> r == Err::<Task, RepoError>(RepoError::NotFound) || r
                == Err::<Task, RepoError>(RepoError::PersistenceUnavailable),
            old(self).available() ==> (r is Ok <==> old(self).contents().contains_key(id)),
            old(self).available() && !old(self).contents().contains_key(id) ==> r == Err::<Task, RepoError>(
                RepoError::NotFound,
            ),
    ;
}

} // verus!
