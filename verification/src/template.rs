//! The template engine, `tera`, as far as this library uses it.
//!
//! A page is rendered from a context: a map from names to JSON values. The
//! library fills contexts and leaves the rendering to its callers. This
//! module says in terms of [`Json`] what the calls into `tera` put into a
//! context. Nothing here is proved: each item states what the engine's
//! source shows, and the rest of the library is proved from these statements.

use vstd::prelude::*;
use crate::model::{task_views, Task, TaskView};

verus! {

/// A JSON value, as a template sees it.
pub ghost enum Json {
    Flag(bool),
    Number(int),
    Text(Seq<char>),
    List(Seq<Json>),
    Object(Map<Seq<char>, Json>),
}

/// A task as a template sees it: an object with the fields `id`,
/// `description` and `completed`.
pub open spec fn task_json(task: TaskView) -> Json {
    Json::Object(
        Map::<Seq<char>, Json>::empty().insert("id"@, Json::Number(task.id as int)).insert(
            "description"@,
            Json::Text(task.description),
        ).insert("completed"@, Json::Flag(task.completed)),
    )
}

/// A list of tasks as a template sees it.
pub open spec fn tasks_json(tasks: Seq<TaskView>) -> Json {
    Json::List(tasks.map_values(|task: TaskView| task_json(task)))
}

/// A pair of texts as a template sees it: a list of two.
pub open spec fn pair_json(first: Seq<char>, second: Seq<char>) -> Json {
    Json::List(seq![Json::Text(first), Json::Text(second)])
}

/// `tera::Context`: the values a template is rendered from, by name.
#[verifier::external_type_specification]
#[verifier::external_body]
pub struct ExContext(tera::Context);

/// The values a context holds, by name.
pub uninterp spec fn bindings(context: tera::Context) -> Map<Seq<char>, Json>;

/// `tera::Context::new` gives a context that holds nothing.
pub assume_specification[ tera::Context::new ]() -> (context: tera::Context)
    ensures
        bindings(context) == (Map::<Seq<char>, Json>::empty()),
;

/// `tera::Context::insert` with a list of tasks: each task goes in as an
/// object of its three fields, the list in its order. The list is then held
/// under `key`, in place of what was held there; every other name keeps its
/// value.
#[verifier::external_body]
pub(crate) fn bind_tasks(context: &mut tera::Context, key: &str, tasks: &Vec<Task>)
    ensures
        bindings(*final(context)) == bindings(*old(context)).insert(
            key@,
            tasks_json(task_views(tasks@)),
        ),
{
    let rows: Vec<tera::Value> = tasks.iter().map(|task| {
        let mut row = tera::Map::new();
        row.insert("id".to_string(), tera::Value::from(task.id));
        row.insert("description".to_string(), tera::Value::from(task.description.as_str()));
        row.insert("completed".to_string(), tera::Value::from(task.completed));
        tera::Value::Object(row)
    }).collect();
    context.insert(key, &rows);
}

/// `tera::Context::insert` with a pair of texts: the pair is held under
/// `key` as a list of two, in place of what was held there; every other name
/// keeps its value.
#[verifier::external_body]
pub(crate) fn bind_pair(context: &mut tera::Context, key: &str, first: &str, second: &str)
    ensures
        bindings(*final(context)) == bindings(*old(context)).insert(
            key@,
            pair_json(first@, second@),
        ),
{
    context.insert(key, &(first, second));
}

} // verus!
