//! The task entity as the store holds it.

use vstd::prelude::*;

verus! {

/// One row of the task table.
///
/// The store assigns `id` when the row is created and never changes it.
/// The two timestamps are set by the store as well; they count microseconds
/// since the Unix epoch and are absent where the table has no such column.
#[derive(Debug)]
pub struct TaskModel {
    pub id: u128,
    pub title: String,
    pub content: String,
    pub created_at: Option<i64>,
    pub updated_at: Option<i64>,
}

/// What a task holds, as mathematical values.
pub struct TaskView {
    pub id: u128,
    pub title: Seq<char>,
    pub content: Seq<char>,
    pub created_at: Option<i64>,
    pub updated_at: Option<i64>,
}

impl View for TaskModel {
    type V = TaskView;

    open spec fn view(&self) -> TaskView {
        TaskView {
            id: self.id,
            title: self.title@,
            content: self.content@,
            created_at: self.created_at,
            updated_at: self.updated_at,
        }
    }
}

impl Clone for TaskModel {
    fn clone(&self) -> (res: TaskModel)
        ensures
            res@ == self@,
    {
        TaskModel {
            id: self.id,
            title: self.title.clone(),
            content: self.content.clone(),
            created_at: self.created_at,
            updated_at: self.updated_at,
        }
    }
}

/// The views of a list of tasks, in the list's order.
pub open spec fn task_views(tasks: Seq<TaskModel>) -> Seq<TaskView> {
    tasks.map_values(|t: TaskModel| t@)
}

} // verus!
