//! What holds of every run of the site.
//!
//! Each statement is about [`served`]: the site after a request, and what
//! the request is answered with or what its page is rendered from.
//! [`Site::serve`](crate::site::Site::serve) is proved to do what `served`
//! says.

use vstd::prelude::*;
use crate::api::{
    decode_method, index_bindings, message_json, rendered_outcome, responded, store_failed,
    ErrorPagesView, MethodOverrideView, StepView, UpdateParams, DELETE, EMPTY_DESCRIPTION, HOME,
    MESSAGE_KEY, PUT, TASKS_KEY, TASK_ADDED, TASK_DELETED,
};
use crate::dispatch::{begun_step, FormView};
use crate::error::{FailureView, StoreErrorView};
use crate::flash::{FlashMessageView, Level};
use crate::model::TaskView;
use crate::response::{page, plain, redirect, BAD_REQUEST, INTERNAL_SERVER_ERROR};
use crate::router::{route_of, Method, Route, TODO};
use crate::site::{served, RequestView, Shown, SiteView};
use crate::store::{
    has_task, lemma_create_keeps_order, lemma_delete_keeps_order, lemma_toggle_keeps_order,
    lemma_without_has_none, well_formed, with_toggled, without, StoreCallView,
};
use crate::template::tasks_json;

verus! {

/// A request for the index page.
pub open spec fn index_request() -> RequestView {
    RequestView { method: Method::Get, path: HOME@, form: FormView::Empty }
}

/// A request to add a task with this description.
pub open spec fn create_request(description: Seq<char>) -> RequestView {
    RequestView { method: Method::Post, path: TODO@, form: FormView::Create(description) }
}

/// A request, posted to `path`, to change a task as `method` says.
pub open spec fn update_request(path: Seq<char>, method: Seq<char>) -> RequestView {
    RequestView { method: Method::Post, path, form: FormView::Update(method) }
}

/// Whether `path` is the path of the task with this id.
pub open spec fn leads_to_task(path: Seq<char>, id: i32) -> bool {
    route_of(Method::Post, path) == Route::Update(UpdateParams { id })
}

/// The site after a row of requests, one after the other.
pub open spec fn served_all(site: SiteView, requests: Seq<RequestView>) -> SiteView
    decreases requests.len(),
{
    if requests.len() == 0 {
        site
    } else {
        served(served_all(site, requests.drop_last()), requests.last()).0
    }
}

/// The index page is rendered from the tasks in the store, in their order,
/// and from the latest pending flash message; where none is pending, the
/// page is given none.
pub proof fn lemma_index_shows_store_and_latest_message(site: SiteView)
    ensures
        served(site, index_request()).1 == Shown::Index(
            index_bindings(site.store.tasks, site.pending),
        ),
        index_bindings(site.store.tasks, site.pending)[TASKS_KEY@] == tasks_json(site.store.tasks),
        site.pending.len() > 0 ==> index_bindings(site.store.tasks, site.pending)[MESSAGE_KEY@]
            == message_json(site.pending.last()),
        site.pending.len() == 0 ==> !index_bindings(site.store.tasks, site.pending).dom().contains(
            MESSAGE_KEY@,
        ),
        served(site, index_request()).0.store == site.store,
{
    reveal_strlit("tasks");
    reveal_strlit("msg");
    assert(TASKS_KEY@.len() != MESSAGE_KEY@.len());
}

/// A page that was rendered goes out as it was rendered, with status 200.
/// A failure to render it is answered as a failure of the server: with
/// status 500 and, where the document for that status is there, with that
/// document as its body.
pub proof fn lemma_rendered_page_goes_out(pages: ErrorPagesView, body: Seq<char>, cause: Seq<char>)
    ensures
        responded(rendered_outcome(Ok(body)), pages) == page(body),
        responded(rendered_outcome(Err(cause)), pages).status == INTERNAL_SERVER_ERROR,
        pages.internal_server_error matches Some(document) ==> responded(
            rendered_outcome(Err(cause)),
            pages,
        ) == plain(INTERNAL_SERVER_ERROR, document),
{
}

/// A flash message is shown once. Whatever a request leaves pending, the
/// next index page is given the latest of it, and after that page nothing is
/// pending: the index page after it is given no message.
pub proof fn lemma_flash_message_is_shown_once(site: SiteView, request: RequestView)
    ensures
        ({
            let first = served(site, request).0;
            let second = served(first, index_request()).0;
            &&& first.pending.len() > 0 ==> served(first, index_request()).1 == Shown::Index(
                index_bindings(first.store.tasks, first.pending),
            ) && index_bindings(first.store.tasks, first.pending)[MESSAGE_KEY@] == message_json(
                first.pending.last(),
            )
            &&& second.pending.len() == 0
            &&& served(second, index_request()).1 == Shown::Index(
                index_bindings(second.store.tasks, second.pending),
            )
            &&& !index_bindings(second.store.tasks, second.pending).dom().contains(MESSAGE_KEY@)
        }),
{
    let first = served(site, request).0;
    let second = served(first, index_request()).0;
    lemma_index_shows_store_and_latest_message(first);
    lemma_index_shows_store_and_latest_message(second);
}

/// A task that is added with a description that is not empty is listed
/// next, with that description and not completed, and the page that lists
/// it is given the message that the task was added. This holds unless the
/// store has run out of ids.
pub proof fn lemma_created_task_is_listed(site: SiteView, description: Seq<char>)
    requires
        description.len() > 0,
        site.store.last_id < i32::MAX,
    ensures
        ({
            let (added, shown) = served(site, create_request(description));
            let task = TaskView {
                id: (site.store.last_id + 1) as i32,
                description,
                completed: false,
            };
            &&& shown == Shown::Exactly(redirect(HOME@))
            &&& added.store.tasks == site.store.tasks.push(task)
            &&& added.store.tasks.contains(task)
            &&& added.pending == seq![
                FlashMessageView { level: Level::Success, content: TASK_ADDED@ },
            ]
            &&& served(added, index_request()).1 == Shown::Index(
                index_bindings(added.store.tasks, added.pending),
            )
            &&& index_bindings(added.store.tasks, added.pending)[TASKS_KEY@] == tasks_json(
                added.store.tasks,
            )
            &&& index_bindings(added.store.tasks, added.pending)[MESSAGE_KEY@] == message_json(
                FlashMessageView { level: Level::Success, content: TASK_ADDED@ },
            )
        }),
{
    reveal_strlit("/");
    reveal_strlit("/todo");
    assert(HOME@.len() != TODO@.len());
    let (added, shown) = served(site, create_request(description));
    let task = TaskView { id: (site.store.last_id + 1) as i32, description, completed: false };
    assert(added.store.tasks[site.store.tasks.len() as int] == task);
    assert(added.pending =~= seq![
        FlashMessageView { level: Level::Success, content: TASK_ADDED@ },
    ]);
    lemma_index_shows_store_and_latest_message(added);
}

/// An empty description adds no task: the store stays as it is, the client
/// is sent back to the index page, and that page lists what was listed
/// before and is given the message that the description cannot be empty.
pub proof fn lemma_empty_description_adds_nothing(site: SiteView)
    ensures
        ({
            let (turned_away, shown) = served(site, create_request(Seq::empty()));
            &&& shown == Shown::Exactly(redirect(HOME@))
            &&& turned_away.store == site.store
            &&& turned_away.pending == seq![
                FlashMessageView { level: Level::Error, content: EMPTY_DESCRIPTION@ },
            ]
            &&& served(turned_away, index_request()).1 == Shown::Index(
                index_bindings(site.store.tasks, turned_away.pending),
            )
            &&& index_bindings(site.store.tasks, turned_away.pending)[TASKS_KEY@] == tasks_json(
                site.store.tasks,
            )
            &&& index_bindings(site.store.tasks, turned_away.pending)[MESSAGE_KEY@] == message_json(
                FlashMessageView { level: Level::Error, content: EMPTY_DESCRIPTION@ },
            )
        }),
{
    reveal_strlit("/");
    reveal_strlit("/todo");
    assert(HOME@.len() != TODO@.len());
    let (turned_away, shown) = served(site, create_request(Seq::empty()));
    assert(turned_away.pending =~= seq![
        FlashMessageView { level: Level::Error, content: EMPTY_DESCRIPTION@ },
    ]);
    lemma_index_shows_store_and_latest_message(turned_away);
}

/// `put` stands for toggling, `delete` for deleting, and neither for the
/// other.
pub proof fn lemma_methods_decoded()
    ensures
        decode_method(PUT@) == MethodOverrideView::Toggle,
        decode_method(DELETE@) == MethodOverrideView::Delete,
{
    reveal_strlit("put");
    reveal_strlit("delete");
    assert(PUT@.len() != DELETE@.len());
}

/// Toggling the tasks of an id twice gives the tasks back as they were.
pub proof fn lemma_toggled_twice(tasks: Seq<TaskView>, id: i32)
    ensures
        with_toggled(with_toggled(tasks, id), id) == tasks,
        has_task(with_toggled(tasks, id), id) == has_task(tasks, id),
{
    assert(with_toggled(with_toggled(tasks, id), id) =~= tasks);
    if has_task(tasks, id) {
        let i = choose|i: int| 0 <= i < tasks.len() && (#[trigger] tasks[i]).id == id;
        assert(with_toggled(tasks, id)[i].id == id);
    }
    if has_task(with_toggled(tasks, id), id) {
        let i = choose|i: int|
            0 <= i < with_toggled(tasks, id).len() && (#[trigger] with_toggled(tasks, id)[i]).id
                == id;
        assert(tasks[i].id == id);
    }
}

/// Two requests to toggle the same task leave the store as it was. Neither
/// sends a flash message. Where the task exists, both send the client back
/// to the index page.
pub proof fn lemma_toggle_twice_restores(site: SiteView, path: Seq<char>, id: i32)
    requires
        leads_to_task(path, id),
    ensures
        ({
            let (once, first_shown) = served(site, update_request(path, PUT@));
            let (twice, second_shown) = served(once, update_request(path, PUT@));
            &&& twice.store == site.store
            &&& once.pending.len() == 0
            &&& twice.pending.len() == 0
            &&& has_task(site.store.tasks, id) ==> first_shown == Shown::Exactly(redirect(HOME@))
                && second_shown == Shown::Exactly(redirect(HOME@))
                && once.store.tasks == with_toggled(site.store.tasks, id)
        }),
{
    lemma_methods_decoded();
    lemma_toggled_twice(site.store.tasks, id);
}

/// After a request to delete a task, no task has its id. Where there was
/// one, the client is sent back to the index page with the message that the
/// task was deleted. A request to toggle or to delete the id after that is
/// answered as a failure of the server: with status 500 and, where the
/// document for that status is there, with that document as its body. Such
/// a request changes nothing in the store.
pub proof fn lemma_deleted_task_is_gone(site: SiteView, path: Seq<char>, id: i32, method: Seq<char>)
    requires
        leads_to_task(path, id),
        method == PUT@ || method == DELETE@,
    ensures
        ({
            let (deleted, first_shown) = served(site, update_request(path, DELETE@));
            let (after, shown) = served(deleted, update_request(path, method));
            &&& !has_task(deleted.store.tasks, id)
            &&& has_task(site.store.tasks, id) ==> deleted.store.tasks == without(
                site.store.tasks,
                id,
            ) && first_shown == Shown::Exactly(redirect(HOME@)) && deleted.pending == seq![
                FlashMessageView { level: Level::Success, content: TASK_DELETED@ },
            ]
            &&& after.store == deleted.store
            &&& shown == Shown::Exactly(
                responded(store_failed(StoreErrorView::NoSuchTask(id)), site.pages),
            )
            &&& responded(store_failed(StoreErrorView::NoSuchTask(id)), site.pages).status
                == INTERNAL_SERVER_ERROR
            &&& site.pages.internal_server_error matches Some(document) ==> responded(
                store_failed(StoreErrorView::NoSuchTask(id)),
                site.pages,
            ) == plain(INTERNAL_SERVER_ERROR, document)
        }),
{
    lemma_methods_decoded();
    lemma_without_has_none(site.store.tasks, id);
    let deleted = served(site, update_request(path, DELETE@)).0;
    if has_task(site.store.tasks, id) {
        assert(deleted.pending =~= seq![
            FlashMessageView { level: Level::Success, content: TASK_DELETED@ },
        ]);
    }
}

/// Every request leaves the store in order, and an id that was given out
/// and whose task is gone stays gone, whatever request comes.
pub proof fn lemma_gone_stays_gone(site: SiteView, id: i32, request: RequestView)
    requires
        well_formed(site.store),
        id <= site.store.last_id,
        !has_task(site.store.tasks, id),
    ensures
        well_formed(served(site, request).0.store),
        id <= served(site, request).0.store.last_id,
        !has_task(served(site, request).0.store.tasks, id),
{
    let route = route_of(request.method, request.path);
    match begun_step(route, request.form) {
        StepView::Ask(StoreCallView::Create(description)) => {
            lemma_create_keeps_order(site.store, description);
        },
        StepView::Ask(StoreCallView::Toggle(other)) => {
            lemma_toggle_keeps_order(site.store, other);
        },
        StepView::Ask(StoreCallView::Delete(other)) => {
            lemma_delete_keeps_order(site.store, other);
        },
        _ => {},
    }
}

/// Once a task is deleted, no row of requests brings its id back.
pub proof fn lemma_deleted_for_good(
    site: SiteView,
    path: Seq<char>,
    id: i32,
    requests: Seq<RequestView>,
)
    requires
        well_formed(site.store),
        leads_to_task(path, id),
        has_task(site.store.tasks, id),
    ensures
        !has_task(
            served_all(served(site, update_request(path, DELETE@)).0, requests).store.tasks,
            id,
        ),
        well_formed(
            served_all(served(site, update_request(path, DELETE@)).0, requests).store,
        ),
        id <= served_all(served(site, update_request(path, DELETE@)).0, requests).store.last_id,
    decreases requests.len(),
{
    let deleted = served(site, update_request(path, DELETE@)).0;
    if requests.len() == 0 {
        lemma_methods_decoded();
        lemma_delete_keeps_order(site.store, id);
        let at = choose|at: int| 0 <= at < site.store.tasks.len() && (
        #[trigger] site.store.tasks[at]).id == id;
        assert(site.store.tasks[at].id <= site.store.last_id);
    } else {
        lemma_deleted_for_good(site, path, id, requests.drop_last());
        lemma_gone_stays_gone(served_all(deleted, requests.drop_last()), id, requests.last());
    }
}

/// A request to change a task by a method that is neither `put` nor `delete`
/// changes nothing and is answered as a bad request: with status 400 and
/// the document for that status as its body, not with the text that names
/// the method. Where that document is missing, the answer is a failure of
/// the server.
pub proof fn lemma_unsupported_method_is_bad_request(
    site: SiteView,
    path: Seq<char>,
    id: i32,
    method: Seq<char>,
)
    requires
        leads_to_task(path, id),
        method != PUT@,
        method != DELETE@,
    ensures
        ({
            let (after, shown) = served(site, update_request(path, method));
            let answer = responded(Err(FailureView::UnsupportedMethod(method)), site.pages);
            &&& after.store == site.store
            &&& after.pending.len() == 0
            &&& shown == Shown::Exactly(answer)
            &&& site.pages.bad_request matches Some(document) ==> answer == plain(
                BAD_REQUEST,
                document,
            )
            &&& site.pages.bad_request is None ==> answer.status == INTERNAL_SERVER_ERROR
        }),
{
}

} // verus!
