use vstd::prelude::*;

use crate::repository::{created, deleted, lists, text_of, updated, views, RepoError, TaskRepository};
use crate::sources::{fresh_id, now_micros};
use crate::task::{Task, TaskView};

verus! {

/// A repository that keeps its tasks in memory, in order of creation, and
/// remembers every identifier it has handed out so that none is reused.
pub struct InMemoryTaskRepository {
    tasks: Vec<Task>,
    issued: Vec<u128>,
    model: Ghost<Map<u128, TaskView>>,
}

impl InMemoryTaskRepository {
    /// The tasks held, by identifier.
    pub closed spec fn tasks(&self) -> Map<u128, TaskView> {
        self.model@
    }

    /// Every identifier handed out so far.
    pub closed spec fn ids(&self) -> Set<u128> {
        Set::new(|k: u128| self.issued@.contains(k))
    }

    /// The vector lists the model exactly, and each task held carries an
    /// identifier that was handed out.
    pub closed spec fn valid(&self) -> bool {
        &&& lists(views(self.tasks@), self.model@)
        &&& forall|k: u128| #[trigger] self.model@.contains_key(k) ==> self.issued@.contains(k)
    }

    /// An empty store.
    pub fn new() -> (r: Self)
        ensures
            r.valid(),
            r.tasks() == Map::<u128, TaskView>::empty(),
            r.ids() == Set::<u128>::empty(),
    {
        let r = InMemoryTaskRepository { tasks: Vec::new(), issued: Vec::new(), model: Ghost(Map::empty()) };
        assert(r.ids() =~= Set::<u128>::empty());
        r
    }

    /// Whether `id` was ever handed out.
    fn was_issued(&self, id: u128) -> (r: bool)
        ensures
            r == self.ids().contains(id),
    {
        let mut i: usize = 0;
        while i < self.issued.len()
            invariant
                i <= self.issued@.len(),
                forall|j: int| 0 <= j < i ==> #[trigger] self.issued@[j] != id,
            decreases self.issued@.len() - i,
        {
            if self.issued[i] == id {
                assert(self.issued@[i as int] == id);
                return true;
            }
            i = i + 1;
        }
        false
    }

    /// The position of the task `id`, if it is held.
    fn position(&self, id: u128) -> (r: Option<usize>)
        requires
            self.valid(),
        ensures
            match r {
                Some(i) => i < self.tasks@.len() && self.tasks@[i as int].id == id,
                None => !self.tasks().contains_key(id),
            },
    {
        let mut i: usize = 0;
        while i < self.tasks.len()
            invariant
                self.valid(),
                i <= self.tasks@.len(),
                forall|j: int| 0 <= j < i ==> #[trigger] self.tasks@[j].id != id,
            decreases self.tasks@.len() - i,
        {
            if self.tasks[i].id == id {
                return Some(i);
            }
            i = i + 1;
        }
        proof {
            if self.model@.contains_key(id) {
                let j = choose|j: int| 0 <= j < views(self.tasks@).len() && #[trigger] views(self.tasks@)[j].id == id;
                assert(self.tasks@[j].id == id);
            }
        }
        None
    }

    /// Stores a new task under the given identifier and creation time, unless
    /// the identifier was handed out before.
    pub fn insert_new(&mut self, id: u128, created_at: i64, title: String, content: String) -> (r: Result<Task, RepoError>)
        requires
            old(self).valid(),
        ensures
            final(self).valid(),
            old(self).ids().contains(id) ==> r == Err::<Task, RepoError>(RepoError::Conflict)
                && final(self).tasks() == old(self).tasks() && final(self).ids() == old(self).ids(),
            !old(self).ids().contains(id) ==> (match r {
                Ok(t) => t@ == (TaskView { id, title: title@, content: content@, created_at })
                    && created(old(self).tasks(), final(self).tasks(), t@, title@, content@)
                    && final(self).ids() == old(self).ids().insert(id),
                Err(_) => false,
            }),
    {
        if self.was_issued(id) {
            return Err(RepoError::Conflict);
        }
        let t = Task { id, title, content, created_at };
        let out = t.duplicate();
        let ghost before = views(self.tasks@);
        let ghost m = self.model@;
        let ghost old_issued = self.issued@;
        let ghost old_ids = self.ids();
        self.tasks.push(t);
        self.issued.push(id);
        self.model = Ghost(m.insert(id, out@));
        proof {
            let after = views(self.tasks@);
            assert(after =~= before.push(out@));
            assert forall|k: u128| #[trigger] self.model@.contains_key(k) implies exists|i: int|
                0 <= i < after.len() && #[trigger] after[i].id == k by {
                if k == id {
                    assert(after[before.len() as int].id == k);
                } else {
                    assert(m.contains_key(k));
                    let j = choose|j: int| 0 <= j < before.len() && #[trigger] before[j].id == k;
                    assert(after[j].id == k);
                }
            }
            assert forall|k: u128| self.issued@.contains(k) <==> old_issued.contains(k) || k == id by {
                if old_issued.contains(k) {
                    let j = choose|j: int| 0 <= j < old_issued.len() && old_issued[j] == k;
                    assert(self.issued@[j] == k);
                }
                if k == id {
                    assert(self.issued@[old_issued.len() as int] == k);
                }
                if self.issued@.contains(k) && k != id {
                    let j = choose|j: int| 0 <= j < self.issued@.len() && self.issued@[j] == k;
                    assert(j < old_issued.len());
                    assert(old_issued[j] == k);
                }
            }
            assert(self.ids() =~= old_ids.insert(id));
        }
        Ok(out)
    }

    /// Every task held, in order of creation.
    pub fn list(&self) -> (r: Vec<Task>)
        requires
            self.valid(),
        ensures
            lists(views(r@), self.tasks()),
    {
        let mut out: Vec<Task> = Vec::new();
        let mut i: usize = 0;
        while i < self.tasks.len()
            invariant
                i <= self.tasks@.len(),
                views(out@) =~= views(self.tasks@).subrange(0, i as int),
            decreases self.tasks@.len() - i,
        {
            let t = self.tasks[i].duplicate();
            let ghost prev = out@;
            out.push(t);
            proof {
                assert(views(out@) =~= views(prev).push(self.tasks@[i as int]@));
            }
            i = i + 1;
        }
        proof {
            assert(views(out@) =~= views(self.tasks@));
        }
        out
    }

    /// Replaces the supplied fields of the task `id`; fails with `NotFound`
    /// exactly when no task carries `id`.
    pub fn update(&mut self, id: u128, title: Option<String>, content: Option<String>) -> (r: Result<Task, RepoError>)
        requires
            old(self).valid(),
        ensures
            final(self).valid(),
            final(self).ids() == old(self).ids(),
            !old(self).tasks().contains_key(id) ==> r == Err::<Task, RepoError>(RepoError::NotFound)
                && final(self).tasks() == old(self).tasks(),
            old(self).tasks().contains_key(id) ==> (match r {
                Ok(t) => updated(old(self).tasks(), final(self).tasks(), id, text_of(title), text_of(content), t@),
                Err(_) => false,
            }),
    {
        match self.position(id) {
            None => Err(RepoError::NotFound),
            Some(i) => {
                let ghost before = views(self.tasks@);
                let ghost m = self.model@;
                proof {
                    assert(before[i as int].id == id);
                }
                let cur = &self.tasks[i];
                let new_title = match title {
                    Some(s) => s,
                    None => cur.title.clone(),
                };
                let new_content = match content {
                    Some(s) => s,
                    None => cur.content.clone(),
                };
                let t = Task { id, title: new_title, content: new_content, created_at: cur.created_at };
                let out = t.duplicate();
                self.tasks.set(i, t);
                self.model = Ghost(m.insert(id, out@));
                proof {
                    let after = views(self.tasks@);
                    assert(after =~= before.update(i as int, out@));
                    assert forall|k: u128| #[trigger] self.model@.contains_key(k) implies exists|j: int|
                        0 <= j < after.len() && #[trigger] after[j].id == k by {
                        let j = choose|j: int| 0 <= j < before.len() && #[trigger] before[j].id == k;
                        assert(after[j].id == k);
                    }
                }
                Ok(out)
            },
        }
    }

    /// Removes the task `id` and hands back its last state; fails with
    /// `NotFound` exactly when no task carries `id`.
    pub fn delete(&mut self, id: u128) -> (r: Result<Task, RepoError>)
        requires
            old(self).valid(),
        ensures
            final(self).valid(),
            final(self).ids() == old(self).ids(),
            !old(self).tasks().contains_key(id) ==> r == Err::<Task, RepoError>(RepoError::NotFound)
                && final(self).tasks() == old(self).tasks(),
            old(self).tasks().contains_key(id) ==> (match r {
                Ok(t) => deleted(old(self).tasks(), final(self).tasks(), id, t@),
                Err(_) => false,
            }),
    {
        match self.position(id) {
            None => Err(RepoError::NotFound),
            Some(i) => {
                let ghost before = views(self.tasks@);
                let ghost m = self.model@;
                proof {
                    assert(before[i as int].id == id);
                }
                let t = self.tasks.remove(i);
                self.model = Ghost(m.remove(id));
                proof {
                    let after = views(self.tasks@);
                    assert(after =~= before.remove(i as int));
                    assert forall|a: int, b: int| 0 <= a < b < after.len() implies #[trigger] after[a].id
                        != #[trigger] after[b].id by {
                        let a0 = if a < i { a } else { a + 1 };
                        let b0 = if b < i { b } else { b + 1 };
                        assert(before[a0].id != before[b0].id);
                    }
                    assert forall|a: int| 0 <= a < after.len() implies self.model@.contains_key(
                        #[trigger] after[a].id,
                    ) && self.model@[after[a].id] == after[a] by {
                        let a0 = if a < i { a } else { a + 1 };
                        assert(before[a0] == after[a]);
                        assert(before[a0].id != before[i as int].id);
                    }
                    assert forall|k: u128| #[trigger] self.model@.contains_key(k) implies exists|j: int|
                        0 <= j < after.len() && #[trigger] after[j].id == k by {
                        let j = choose|j: int| 0 <= j < before.len() && #[trigger] before[j].id == k;
                        assert(j != i);
                        if j < i {
                            assert(after[j].id == k);
                        } else {
                            assert(after[j - 1].id == k);
                        }
                    }
                }
                Ok(t)
            },
        }
    }

    /// Stores a new task under a random identifier, stamped with the current
    /// time. Fails with `Conflict`, changing nothing, when the identifier drawn
    /// was handed out before, which cannot happen on a store that has never
    /// handed one out.
    pub fn create(&mut self, title: String, content: String) -> (r: Result<Task, RepoError>)
        requires
            old(self).valid(),
        ensures
            final(self).valid(),
            old(self).ids() == Set::<u128>::empty() ==> r is Ok,
            match r {
                Ok(t) => created(old(self).tasks(), final(self).tasks(), t@, title@, content@)
                    && !old(self).ids().contains(t.id) && final(self).ids() == old(self).ids().insert(t.id),
                Err(e) => e == RepoError::Conflict && final(self).tasks() == old(self).tasks()
                    && final(self).ids() == old(self).ids(),
            },
    {
        let id = fresh_id();
        let created_at = now_micros();
        self.insert_new(id, created_at, title, content)
    }

    /// Every task held, in order of creation; an in-memory read never fails.
    pub fn get_all(&self) -> (r: Result<Vec<Task>, RepoError>)
        requires
            self.valid(),
        ensures
            match r {
                Ok(v) => lists(views(v@), self.tasks()),
                Err(_) => false,
            },
    {
        Ok(self.list())
    }
}

impl TaskRepository for InMemoryTaskRepository {
    open spec fn contents(&self) -> Map<u128, TaskView> {
        self.tasks()
    }

    open spec fn issued(&self) -> Set<u128> {
        self.ids()
    }

    open spec fn available(&self) -> bool {
        true
    }

    open spec fn wf(&self) -> bool {
        self.valid()
    }

    proof fn lemma_held_tasks_keyed(&self) {
        let listing = views(self.tasks@);
        assert forall|k: u128| #[trigger] self.model@.contains_key(k) implies self.model@[k].id == k by {
            let i = choose|i: int| 0 <= i < listing.len() && #[trigger] listing[i].id == k;
            assert(self.model@[listing[i].id] == listing[i]);
        }
    }

    fn create(&mut self, title: String, content: String) -> (r: Result<Task, RepoError>) {
        InMemoryTaskRepository::create(self, title, content)
    }

    fn get_all(&self) -> (r: Result<Vec<Task>, RepoError>) {
        InMemoryTaskRepository::get_all(self)
    }

    fn delete(&mut self, id: u128) -> (r: Result<Task, RepoError>) {
        InMemoryTaskRepository::delete(self, id)
    }

    fn update(&mut self, id: u128, title: Option<String>, content: Option<String>) -> (r: Result<Task, RepoError>) {
        InMemoryTaskRepository::update(self, id, title, content)
    }
}

} // verus!
