//! The data store: what handlers may ask of it, and a store held in memory.

use vstd::prelude::*;
use crate::error::{StoreError, StoreErrorView};
use crate::model::{duplicate_tasks, task_views, Task, TaskView};

verus! {

/// An operation of the data store.
#[derive(Debug, Clone, PartialEq, Eq)]
pub enum StoreCall {
    /// List every task.
    ListAll,
    /// Add a task with this description, not completed.
    Create(String),
    /// Turn the `completed` of the task with this id into its opposite.
    Toggle(i32),
    /// Remove the task with this id.
    Delete(i32),
}

/// A store operation as specifications see it.
pub ghost enum StoreCallView {
    ListAll,
    Create(Seq<char>),
    Toggle(i32),
    Delete(i32),
}

impl View for StoreCall {
    type V = StoreCallView;

    open spec fn view(&self) -> StoreCallView {
        match self {
            StoreCall::ListAll => StoreCallView::ListAll,
            StoreCall::Create(description) => StoreCallView::Create(description@),
            StoreCall::Toggle(id) => StoreCallView::Toggle(*id),
            StoreCall::Delete(id) => StoreCallView::Delete(*id),
        }
    }
}

/// What a store holds, as specifications see it.
pub ghost struct StoreView {
    /// The tasks, in the order in which they were added.
    pub tasks: Seq<TaskView>,
    /// The highest id that was ever given to a task; 0 before the first.
    pub last_id: i32,
}

/// Whether a store is in order: ids are positive, none is higher than the
/// last one given out, and the tasks stand by rising id, so that no id
/// occurs twice.
pub open spec fn well_formed(store: StoreView) -> bool {
    &&& 0 <= store.last_id
    &&& forall|i: int|
        0 <= i < store.tasks.len() ==> 0 < (#[trigger] store.tasks[i]).id <= store.last_id
    &&& forall|i: int, j: int|
        0 <= i < j < store.tasks.len() ==> (#[trigger] store.tasks[i]).id < (
        #[trigger] store.tasks[j]).id
}

/// Whether one of the tasks has this id.
pub open spec fn has_task(tasks: Seq<TaskView>, id: i32) -> bool {
    exists|i: int| 0 <= i < tasks.len() && (#[trigger] tasks[i]).id == id
}

/// The task with its `completed` turned into its opposite.
pub open spec fn flipped(task: TaskView) -> TaskView {
    TaskView { id: task.id, description: task.description, completed: !task.completed }
}

/// The tasks, with the one of this id flipped.
pub open spec fn with_toggled(tasks: Seq<TaskView>, id: i32) -> Seq<TaskView> {
    tasks.map_values(
        |task: TaskView|
            if task.id == id {
                flipped(task)
            } else {
                task
            },
    )
}

/// The tasks but those of this id, in the same order.
pub open spec fn without(tasks: Seq<TaskView>, id: i32) -> Seq<TaskView>
    decreases tasks.len(),
{
    if tasks.len() == 0 {
        tasks
    } else if tasks.last().id == id {
        without(tasks.drop_last(), id)
    } else {
        without(tasks.drop_last(), id).push(tasks.last())
    }
}

/// What adding a task comes to: the task gets the id after the last one
/// given out and stands last, not completed. A store whose ids have run out
/// fails and stays as it is.
pub open spec fn store_create(store: StoreView, description: Seq<char>) -> (
    StoreView,
    Result<(), StoreErrorView>,
) {
    if store.last_id < i32::MAX {
        let id = (store.last_id + 1) as i32;
        (
            StoreView {
                tasks: store.tasks.push(TaskView { id, description, completed: false }),
                last_id: id,
            },
            Ok(()),
        )
    } else {
        (store, Err(StoreErrorView::Exhausted))
    }
}

/// What toggling a task comes to. A store without a task of this id fails
/// and stays as it is.
pub open spec fn store_toggle(store: StoreView, id: i32) -> (StoreView, Result<(), StoreErrorView>) {
    if has_task(store.tasks, id) {
        (StoreView { tasks: with_toggled(store.tasks, id), last_id: store.last_id }, Ok(()))
    } else {
        (store, Err(StoreErrorView::NoSuchTask(id)))
    }
}

/// What deleting a task comes to. A store without a task of this id fails
/// and stays as it is.
pub open spec fn store_delete(store: StoreView, id: i32) -> (StoreView, Result<(), StoreErrorView>) {
    if has_task(store.tasks, id) {
        (StoreView { tasks: without(store.tasks, id), last_id: store.last_id }, Ok(()))
    } else {
        (store, Err(StoreErrorView::NoSuchTask(id)))
    }
}

/// Taking out what is not there changes nothing.
pub proof fn lemma_without_absent(tasks: Seq<TaskView>, id: i32)
    requires
        !has_task(tasks, id),
    ensures
        without(tasks, id) == tasks,
    decreases tasks.len(),
{
    if tasks.len() > 0 {
        assert(tasks[tasks.len() - 1].id != id);
        assert(!has_task(tasks.drop_last(), id)) by {
            if has_task(tasks.drop_last(), id) {
                let i = choose|i: int|
                    0 <= i < tasks.drop_last().len() && (#[trigger] tasks.drop_last()[i]).id == id;
                assert(tasks[i].id == id);
            }
        }
        lemma_without_absent(tasks.drop_last(), id);
        assert(tasks.drop_last().push(tasks.last()) =~= tasks);
    }
}

/// Where no id occurs twice, taking out an id takes out the one task that
/// has it.
pub proof fn lemma_without_removes(tasks: Seq<TaskView>, at: int)
    requires
        0 <= at < tasks.len(),
        forall|i: int, j: int|
            0 <= i < j < tasks.len() ==> (#[trigger] tasks[i]).id != (#[trigger] tasks[j]).id,
    ensures
        without(tasks, tasks[at].id) == tasks.remove(at),
    decreases tasks.len(),
{
    let id = tasks[at].id;
    let front = tasks.drop_last();
    if at == tasks.len() - 1 {
        assert(!has_task(front, id)) by {
            if has_task(front, id) {
                let i = choose|i: int| 0 <= i < front.len() && (#[trigger] front[i]).id == id;
                assert(tasks[i].id == id);
            }
        }
        lemma_without_absent(front, id);
        assert(tasks.remove(at) =~= front);
    } else {
        assert(tasks[at].id != tasks[tasks.len() - 1].id);
        assert(front[at] == tasks[at]);
        assert forall|i: int, j: int| 0 <= i < j < front.len() implies (#[trigger] front[i]).id != (
        #[trigger] front[j]).id by {
            assert(front[i] == tasks[i]);
            assert(front[j] == tasks[j]);
        }
        lemma_without_removes(front, at);
        assert(front.remove(at).push(tasks.last()) =~= tasks.remove(at));
    }
}

/// Once an id is taken out, no task has it.
pub proof fn lemma_without_has_none(tasks: Seq<TaskView>, id: i32)
    ensures
        !has_task(without(tasks, id), id),
        forall|other: i32| !has_task(tasks, other) ==> !has_task(without(tasks, id), other),
    decreases tasks.len(),
{
    if tasks.len() > 0 {
        let front = tasks.drop_last();
        lemma_without_has_none(front, id);
        let rest = without(front, id);
        if has_task(without(tasks, id), id) {
            let i = choose|i: int|
                0 <= i < without(tasks, id).len() && (#[trigger] without(tasks, id)[i]).id == id;
            if i < rest.len() {
                assert(rest[i].id == id);
            }
        }
        assert forall|other: i32| !has_task(tasks, other) implies !has_task(
            without(tasks, id),
            other,
        ) by {
            assert(!has_task(front, other)) by {
                if has_task(front, other) {
                    let i = choose|i: int| 0 <= i < front.len() && (#[trigger] front[i]).id == other;
                    assert(tasks[i].id == other);
                }
            }
            assert(tasks[tasks.len() - 1].id != other);
            if has_task(without(tasks, id), other) {
                let i = choose|i: int|
                    0 <= i < without(tasks, id).len() && (#[trigger] without(tasks, id)[i]).id
                        == other;
                if i < rest.len() {
                    assert(rest[i].id == other);
                }
            }
        }
    }
}

/// Adding a task keeps a store in order, and gives no task an id that was
/// given out before.
pub proof fn lemma_create_keeps_order(store: StoreView, description: Seq<char>)
    requires
        well_formed(store),
    ensures
        well_formed(store_create(store, description).0),
        store.last_id <= store_create(store, description).0.last_id,
        forall|id: i32|
            id <= store.last_id && !has_task(store.tasks, id) ==> !has_task(
                store_create(store, description).0.tasks,
                id,
            ),
{
    let after = store_create(store, description).0;
    if store.last_id < i32::MAX {
        assert forall|i: int| 0 <= i < after.tasks.len() implies 0 < (#[trigger] after.tasks[i]).id
            <= after.last_id by {
            if i < store.tasks.len() {
                assert(after.tasks[i] == store.tasks[i]);
            }
        }
        assert forall|i: int, j: int| 0 <= i < j < after.tasks.len() implies (
        #[trigger] after.tasks[i]).id < (#[trigger] after.tasks[j]).id by {
            assert(after.tasks[i] == store.tasks[i]);
            if j < store.tasks.len() {
                assert(after.tasks[j] == store.tasks[j]);
            }
        }
        assert forall|id: i32| id <= store.last_id && !has_task(store.tasks, id) implies !has_task(
            after.tasks,
            id,
        ) by {
            if has_task(after.tasks, id) {
                let i = choose|i: int| 0 <= i < after.tasks.len() && (#[trigger] after.tasks[i]).id
                    == id;
                if i < store.tasks.len() {
                    assert(store.tasks[i].id == id);
                }
            }
        }
    }
}

/// Toggling a task keeps a store in order, and gives no task another id.
pub proof fn lemma_toggle_keeps_order(store: StoreView, id: i32)
    requires
        well_formed(store),
    ensures
        well_formed(store_toggle(store, id).0),
        store.last_id == store_toggle(store, id).0.last_id,
        forall|other: i32|
            has_task(store_toggle(store, id).0.tasks, other) == has_task(store.tasks, other),
{
    let after = store_toggle(store, id).0;
    assert forall|i: int| 0 <= i < after.tasks.len() implies (#[trigger] after.tasks[i]).id
        == store.tasks[i].id by {}
    assert forall|other: i32| has_task(after.tasks, other) == has_task(store.tasks, other) by {
        if has_task(after.tasks, other) {
            let i = choose|i: int| 0 <= i < after.tasks.len() && (#[trigger] after.tasks[i]).id
                == other;
            assert(store.tasks[i].id == other);
        }
        if has_task(store.tasks, other) {
            let i = choose|i: int| 0 <= i < store.tasks.len() && (#[trigger] store.tasks[i]).id
                == other;
            assert(after.tasks[i].id == other);
        }
    }
}

/// Deleting a task keeps a store in order, takes the id out, and brings no
/// id in.
pub proof fn lemma_delete_keeps_order(store: StoreView, id: i32)
    requires
        well_formed(store),
    ensures
        well_formed(store_delete(store, id).0),
        store.last_id == store_delete(store, id).0.last_id,
        !has_task(store_delete(store, id).0.tasks, id),
        forall|other: i32|
            !has_task(store.tasks, other) ==> !has_task(store_delete(store, id).0.tasks, other),
{
    let after = store_delete(store, id).0;
    lemma_without_has_none(store.tasks, id);
    if has_task(store.tasks, id) {
        let at = choose|at: int| 0 <= at < store.tasks.len() && (#[trigger] store.tasks[at]).id
            == id;
        lemma_without_removes(store.tasks, at);
        assert forall|i: int| 0 <= i < after.tasks.len() implies (#[trigger] after.tasks[i])
            == store.tasks[if i < at {
            i
        } else {
            i + 1
        }] by {}
    }
}

/// A data store held in memory. Ids are given out in rising order, from 1,
/// and never twice.
#[derive(Debug, Clone, PartialEq, Eq)]
pub struct MemoryStore {
    tasks: Vec<Task>,
    last_id: i32,
}

impl View for MemoryStore {
    type V = StoreView;

    closed spec fn view(&self) -> StoreView {
        StoreView { tasks: task_views(self.tasks@), last_id: self.last_id }
    }
}

impl MemoryStore {
    /// A store without tasks.
    pub fn new() -> (store: MemoryStore)
        ensures
            store@ == (StoreView { tasks: Seq::empty(), last_id: 0 }),
            well_formed(store@),
    {
        let store = MemoryStore { tasks: Vec::new(), last_id: 0 };
        assert(task_views(store.tasks@) =~= Seq::<TaskView>::empty());
        store
    }

    /// A store without tasks that goes on giving out ids after `last_id`;
    /// none where `last_id` is negative.
    pub fn starting_after(last_id: i32) -> (store: Option<MemoryStore>)
        ensures
            last_id < 0 ==> store is None,
            last_id >= 0 ==> store is Some && store->0@ == (StoreView {
                tasks: Seq::empty(),
                last_id,
            }) && well_formed(store->0@),
    {
        if last_id < 0 {
            return None;
        }
        let store = MemoryStore { tasks: Vec::new(), last_id };
        assert(task_views(store.tasks@) =~= Seq::<TaskView>::empty());
        Some(store)
    }

    /// Where the task of this id stands, if there is one.
    fn find(&self, id: i32) -> (found: Option<usize>)
        ensures
            match found {
                Some(at) => at < self.tasks.len() && self@.tasks[at as int].id == id,
                None => !has_task(self@.tasks, id),
            },
    {
        let mut i: usize = 0;
        while i < self.tasks.len()
            invariant
                i <= self.tasks.len(),
                forall|k: int| 0 <= k < i ==> self.tasks@[k].id != id,
            decreases self.tasks.len() - i,
        {
            if self.tasks[i].id == id {
                return Some(i);
            }
            i += 1;
        }
        assert(!has_task(self@.tasks, id)) by {
            if has_task(self@.tasks, id) {
                let k = choose|k: int|
                    0 <= k < self@.tasks.len() && (#[trigger] self@.tasks[k]).id == id;
                assert(self.tasks@[k].id == id);
            }
        }
        None
    }

    /// Every task, in the order in which they were added. This store never
    /// fails to list.
    pub fn list_all(&self) -> (listed: Result<Vec<Task>, StoreError>)
        ensures
            listed matches Ok(tasks) && task_views(tasks@) == self@.tasks,
    {
        Ok(duplicate_tasks(&self.tasks))
    }

    /// Adds a task with this description, not completed.
    pub fn create(&mut self, description: String) -> (result: Result<(), StoreError>)
        requires
            well_formed(old(self)@),
        ensures
            well_formed(final(self)@),
            final(self)@ == store_create(old(self)@, description@).0,
            done(result) == store_create(old(self)@, description@).1,
    {
        if self.last_id == i32::MAX {
            return Err(StoreError::Exhausted);
        }
        let id: i32 = self.last_id + 1;
        self.tasks.push(Task::new(id, description));
        self.last_id = id;
        assert(task_views(self.tasks@) =~= task_views(old(self).tasks@).push(
            TaskView { id, description: description@, completed: false },
        ));
        Ok(())
    }

    /// Turns the `completed` of the task with this id into its opposite.
    pub fn toggle(&mut self, id: i32) -> (result: Result<(), StoreError>)
        requires
            well_formed(old(self)@),
        ensures
            well_formed(final(self)@),
            final(self)@ == store_toggle(old(self)@, id).0,
            done(result) == store_toggle(old(self)@, id).1,
    {
        match self.find(id) {
            None => Err(StoreError::NoSuchTask(id)),
            Some(at) => {
                let task = &self.tasks[at];
                let changed = Task {
                    id: task.id,
                    description: task.description.clone(),
                    completed: !task.completed,
                };
                self.tasks.set(at, changed);
                assert(task_views(self.tasks@) =~= with_toggled(task_views(old(self).tasks@), id))
                    by {
                    assert forall|k: int| 0 <= k < self.tasks@.len() implies task_views(
                        self.tasks@,
                    )[k] == with_toggled(task_views(old(self).tasks@), id)[k] by {
                        if k != at {
                            assert(old(self)@.tasks[k].id != old(self)@.tasks[at as int].id);
                        }
                    }
                }
                Ok(())
            },
        }
    }

    /// Removes the task with this id, for good: the id is not given out
    /// again.
    pub fn delete(&mut self, id: i32) -> (result: Result<(), StoreError>)
        requires
            well_formed(old(self)@),
        ensures
            well_formed(final(self)@),
            final(self)@ == store_delete(old(self)@, id).0,
            done(result) == store_delete(old(self)@, id).1,
    {
        match self.find(id) {
            None => Err(StoreError::NoSuchTask(id)),
            Some(at) => {
                self.tasks.remove(at);
                proof {
                    lemma_without_removes(old(self)@.tasks, at as int);
                    assert(task_views(self.tasks@) =~= old(self)@.tasks.remove(at as int));
                }
                Ok(())
            },
        }
    }
}

/// What a store operation that hands nothing back came to, as
/// specifications see it.
pub open spec fn done(result: Result<(), StoreError>) -> Result<(), StoreErrorView> {
    match result {
        Ok(_) => Ok(()),
        Err(error) => Err(error@),
    }
}

} // verus!
