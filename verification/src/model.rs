//! Tasks, as the data store hands them out.

use vstd::prelude::*;

verus! {

/// One entry of the task list.
#[derive(Debug, Clone, PartialEq, Eq)]
pub struct Task {
    pub id: i32,
    pub description: String,
    pub completed: bool,
}

/// A task as specifications see it.
pub ghost struct TaskView {
    pub id: i32,
    pub description: Seq<char>,
    pub completed: bool,
}

impl View for Task {
    type V = TaskView;

    open spec fn view(&self) -> TaskView {
        TaskView { id: self.id, description: self.description@, completed: self.completed }
    }
}

/// The views of a list of tasks, in the same order.
pub open spec fn task_views(tasks: Seq<Task>) -> Seq<TaskView> {
    tasks.map_values(|task: Task| task@)
}

impl Task {
    /// A task that is still to be done.
    pub fn new(id: i32, description: String) -> (task: Task)
        ensures
            task@ == (TaskView { id, description: description@, completed: false }),
    {
        Task { id, description, completed: false }
    }

    /// A second task with the same id, description and state.
    pub fn duplicate(&self) -> (twin: Task)
        ensures
            twin@ == self@,
    {
        Task { id: self.id, description: self.description.clone(), completed: self.completed }
    }
}

/// A second list of the same tasks, in the same order.
pub fn duplicate_tasks(tasks: &Vec<Task>) -> (twins: Vec<Task>)
    ensures
        task_views(twins@) == task_views(tasks@),
{
    let mut twins: Vec<Task> = Vec::new();
    let mut i: usize = 0;
    while i < tasks.len()
        invariant
            i <= tasks.len(),
            twins.len() == i,
            forall|k: int| 0 <= k < i ==> twins@[k]@ == tasks@[k]@,
        decreases tasks.len() - i,
    {
        twins.push(tasks[i].duplicate());
        i += 1;
    }
    assert(task_views(twins@) =~= task_views(tasks@));
    twins
}

} // verus!
