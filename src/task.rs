use vstd::prelude::*;

verus! {

/// A persisted task: an identifier assigned by the store, two texts, and the
/// creation time in microseconds since the Unix epoch.
pub struct Task {
    pub id: u128,
    pub title: String,
    pub content: String,
    pub created_at: i64,
}

/// The mathematical value of a task.
pub struct TaskView {
    pub id: u128,
    pub title: Seq<char>,
    pub content: Seq<char>,
    pub created_at: i64,
}

impl View for Task {
    type V = TaskView;

    open spec fn view(&self) -> TaskView {
        TaskView { id: self.id, title: self.title@, content: self.content@, created_at: self.created_at }
    }
}

impl Task {
    /// A copy of the task, field by field.
    pub fn duplicate(&self) -> (r: Task)
        ensures
            r@ == self@,
    {
        Task {
            id: self.id,
            title: self.title.clone(),
            content: self.content.clone(),
            created_at: self.created_at,
        }
    }
}

} // verus!
