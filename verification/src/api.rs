//! The handlers: what each request does, and what it is answered with.
//!
//! A handler that needs the data store does not call it. It returns the
//! operation it needs ([`Step::Ask`]), and the handler that goes on from
//! there takes the operation's result as an argument. In the same way the
//! index page is not rendered here: [`index`] returns the template's name
//! and its context, and [`index_response`] takes what rendering came to.

use vstd::prelude::*;
use crate::error::{failure_response, Failure, FailureView, StoreError, StoreErrorView};
use crate::flash::{level_name, read, sent, FlashChannel, FlashChannelView, FlashMessageView, Level};
use crate::model::{task_views, Task, TaskView};
use crate::response::{
    page, plain, redirect, Response, ResponseView, BAD_REQUEST, FOUND, INTERNAL_SERVER_ERROR,
    NOT_FOUND,
};
use crate::store::{done, StoreCall, StoreCallView};
use crate::template::{bind_pair, bind_tasks, bindings, pair_json, tasks_json, Json};

verus! {

/// The template of the index page.
pub const INDEX_TEMPLATE: &'static str = "index.html.tera";

/// The name under which the index page finds the tasks.
pub const TASKS_KEY: &'static str = "tasks";

/// The name under which the index page finds a flash message.
pub const MESSAGE_KEY: &'static str = "msg";

/// Where every handler but the index sends the client: the index page.
pub const HOME: &'static str = "/";

/// The flash message of a form without a description.
pub const EMPTY_DESCRIPTION: &'static str = "Description cannot be empty";

/// The flash message of a task that was added.
pub const TASK_ADDED: &'static str = "Task successfully added";

/// The flash message of a task that was deleted.
pub const TASK_DELETED: &'static str = "Task was deleted.";

/// The form value that stands for toggling a task.
pub const PUT: &'static str = "put";

/// The form value that stands for deleting a task.
pub const DELETE: &'static str = "delete";

/// The form of a request to add a task.
#[derive(Debug, Clone, PartialEq, Eq)]
pub struct CreateForm {
    pub description: String,
}

/// What the path of a request to change a task names.
#[derive(Debug, Clone, Copy, PartialEq, Eq, Structural)]
pub struct UpdateParams {
    pub id: i32,
}

/// The form of a request to change a task. A browser's form can only be
/// posted, so the form itself names the method that is meant.
#[derive(Debug, Clone, PartialEq, Eq)]
pub struct UpdateForm {
    pub _method: String,
}

/// The method that an [`UpdateForm`] stands for.
#[derive(Debug, Clone, PartialEq, Eq)]
pub enum MethodOverride {
    /// `put`: toggle the task.
    Toggle,
    /// `delete`: delete the task.
    Delete,
    /// Anything else, as it was written.
    Invalid(String),
}

/// A method override as specifications see it.
pub ghost enum MethodOverrideView {
    Toggle,
    Delete,
    Invalid(Seq<char>),
}

impl View for MethodOverride {
    type V = MethodOverrideView;

    open spec fn view(&self) -> MethodOverrideView {
        match self {
            MethodOverride::Toggle => MethodOverrideView::Toggle,
            MethodOverride::Delete => MethodOverrideView::Delete,
            MethodOverride::Invalid(method) => MethodOverrideView::Invalid(method@),
        }
    }
}

/// What a handler does next: answer, or ask the data store first.
#[derive(Debug, PartialEq, Eq)]
pub enum Step {
    /// The request is done, with this outcome.
    Respond(Result<Response, Failure>),
    /// The data store is to do this; the outcome depends on how that goes.
    Ask(StoreCall),
}

/// A step as specifications see it.
pub ghost enum StepView {
    Respond(Result<ResponseView, FailureView>),
    Ask(StoreCallView),
}

impl View for Step {
    type V = StepView;

    open spec fn view(&self) -> StepView {
        match self {
            Step::Respond(outcome) => StepView::Respond(outcome_view(*outcome)),
            Step::Ask(call) => StepView::Ask(call@),
        }
    }
}

/// What a handler comes to, as specifications see it.
pub open spec fn outcome_view(outcome: Result<Response, Failure>) -> Result<
    ResponseView,
    FailureView,
> {
    match outcome {
        Ok(response) => Ok(response@),
        Err(failure) => Err(failure@),
    }
}

/// The outcome of a request that the data store failed.
pub open spec fn store_failed(error: StoreErrorView) -> Result<ResponseView, FailureView> {
    Err(FailureView::StoreFailure(error))
}

/// The outcome of a request that sends the client back to the index page.
pub open spec fn redirected() -> Result<ResponseView, FailureView> {
    Ok(redirect(HOME@))
}

/// A flash message as the index page sees it: its level's name, then its
/// text.
pub open spec fn message_json(message: FlashMessageView) -> Json {
    pair_json(level_name(message.level), message.content)
}

/// What the index page is rendered from: the tasks under `tasks` and, where
/// messages are pending, the latest of them under `msg`.
pub open spec fn index_bindings(tasks: Seq<TaskView>, pending: Seq<FlashMessageView>) -> Map<
    Seq<char>,
    Json,
> {
    let listed = Map::<Seq<char>, Json>::empty().insert(TASKS_KEY@, tasks_json(tasks));
    if pending.len() == 0 {
        listed
    } else {
        listed.insert(MESSAGE_KEY@, message_json(pending.last()))
    }
}

/// The answer to a request for the index page, given what rendering it came
/// to: the page, or the cause why there is none.
pub open spec fn rendered_outcome(rendered: Result<Seq<char>, Seq<char>>) -> Result<
    ResponseView,
    FailureView,
> {
    match rendered {
        Ok(body) => Ok(page(body)),
        Err(cause) => Err(FailureView::RenderFailure(cause)),
    }
}

/// Builds the context of the index page and reads the pending flash
/// messages while doing so: none is pending afterwards.
pub fn index_context(tasks: &Vec<Task>, flash: &mut FlashChannel) -> (context: tera::Context)
    ensures
        bindings(context) == index_bindings(task_views(tasks@), old(flash)@.pending),
        final(flash)@ == read(old(flash)@),
{
    let mut context = tera::Context::new();
    bind_tasks(&mut context, TASKS_KEY, tasks);
    let messages = flash.iterate();
    let ghost listed = bindings(context);
    let mut i: usize = 0;
    while i < messages.len()
        invariant
            i <= messages.len(),
            listed == (Map::<Seq<char>, Json>::empty()).insert(
                TASKS_KEY@,
                tasks_json(task_views(tasks@)),
            ),
            i == 0 ==> bindings(context) == listed,
            i > 0 ==> bindings(context) == listed.insert(
                MESSAGE_KEY@,
                message_json(messages@[i - 1]@),
            ),
        decreases messages.len() - i,
    {
        let message = &messages[i];
        bind_pair(&mut context, MESSAGE_KEY, message.level.name(), message.content.as_str());
        assert(listed.insert(MESSAGE_KEY@, message_json(message@)) =~= bindings(context));
        i += 1;
    }
    context
}

/// What rendering a page came to, as specifications see it: the page, or
/// the cause why there is none.
pub open spec fn rendered_view(rendered: Result<String, String>) -> Result<Seq<char>, Seq<char>> {
    match rendered {
        Ok(body) => Ok(body@),
        Err(cause) => Err(cause@),
    }
}

/// The answer to a request for the index page, given what rendering it came
/// to.
pub fn index_response(rendered: Result<String, String>) -> (outcome: Result<Response, Failure>)
    ensures
        outcome_view(outcome) == rendered_outcome(rendered_view(rendered)),
{
    match rendered {
        Ok(body) => Ok(Response::ok(body)),
        Err(cause) => Err(Failure::RenderFailure(cause)),
    }
}

/// A page that is to be rendered: the name of its template, and the context
/// that the template is to be given.
#[derive(Debug)]
pub struct Page {
    pub template: &'static str,
    pub context: tera::Context,
}

/// Whether a page is the index page made of these values.
pub open spec fn is_index_page(page: Page, values: Map<Seq<char>, Json>) -> bool {
    page.template@ == INDEX_TEMPLATE@ && bindings(page.context) == values
}

/// The index page. `tasks` is what listing all tasks in the data store came
/// to.
///
/// Where the store failed, that is the failure, and the flash messages are
/// left pending. Otherwise the outcome is the page to render: the template
/// [`INDEX_TEMPLATE`] with the values of [`index_bindings`]. The pending
/// flash messages are read for it, so none is pending afterwards. This
/// function does not render: whoever does hands what it came to to
/// [`index_response`].
pub fn index(tasks: Result<Vec<Task>, StoreError>, flash: &mut FlashChannel) -> (outcome: Result<
    Page,
    Failure,
>)
    ensures
        match tasks {
            Err(error) => {
                &&& outcome matches Err(failure) && failure@ == FailureView::StoreFailure(error@)
                &&& final(flash)@ == old(flash)@
            },
            Ok(listed) => {
                &&& outcome matches Ok(page) && is_index_page(
                    page,
                    index_bindings(task_views(listed@), old(flash)@.pending),
                )
                &&& final(flash)@ == read(old(flash)@)
            },
        },
{
    match tasks {
        Err(error) => Err(Failure::StoreFailure(error)),
        Ok(tasks) => {
            let context = index_context(&tasks, flash);
            Ok(Page { template: INDEX_TEMPLATE, context })
        },
    }
}

/// A redirect to `location`: 302, the `Location` header, and no body.
pub fn redirect_to(location: &str) -> (response: Response)
    ensures
        response@ == redirect(location@),
{
    Response { status: FOUND, location: Some(location.to_owned()), body: String::new() }
}

/// The outcome of a request that changed the store: back to the index page
/// if the store did it, its failure if not.
pub open spec fn changed_outcome(result: Result<(), StoreErrorView>) -> Result<
    ResponseView,
    FailureView,
> {
    match result {
        Ok(_) => redirected(),
        Err(error) => store_failed(error),
    }
}

/// The first step of adding a task: an empty description is turned away
/// with a redirect, any other is handed to the store.
pub open spec fn create_step(description: Seq<char>) -> StepView {
    if description.len() == 0 {
        StepView::Respond(redirected())
    } else {
        StepView::Ask(StoreCallView::Create(description))
    }
}

/// The flash messages after the first step of adding a task: an empty
/// description is answered with an error message, any other with none yet.
pub open spec fn create_flash(description: Seq<char>, flash: FlashChannelView) -> FlashChannelView {
    if description.len() == 0 {
        sent(flash, Level::Error, EMPTY_DESCRIPTION@)
    } else {
        flash
    }
}

/// Adds a task, first step. An empty description is no failure: the client
/// is sent back to the index page with an error message, and the store is
/// not asked.
pub fn create(params: CreateForm, flash: &mut FlashChannel) -> (step: Step)
    ensures
        step@ == create_step(params.description@),
        final(flash)@ == create_flash(params.description@, old(flash)@),
{
    if params.description.as_str().is_empty() {
        flash.send(Level::Error, EMPTY_DESCRIPTION);
        Step::Respond(Ok(redirect_to(HOME)))
    } else {
        Step::Ask(StoreCall::Create(params.description))
    }
}

/// The flash messages after the store was asked to add a task: a success
/// message if it did.
pub open spec fn created_flash(
    result: Result<(), StoreErrorView>,
    flash: FlashChannelView,
) -> FlashChannelView {
    match result {
        Ok(_) => sent(flash, Level::Success, TASK_ADDED@),
        Err(_) => flash,
    }
}

/// Adds a task, second step. `result` is what the store's `Create` came to.
pub fn created(result: Result<(), StoreError>, flash: &mut FlashChannel) -> (outcome: Result<
    Response,
    Failure,
>)
    ensures
        outcome_view(outcome) == changed_outcome(done(result)),
        final(flash)@ == created_flash(done(result), old(flash)@),
{
    match result {
        Err(error) => Err(Failure::StoreFailure(error)),
        Ok(_) => {
            flash.send(Level::Success, TASK_ADDED);
            Ok(redirect_to(HOME))
        },
    }
}

/// The method a form value stands for: `put` and `delete`, written exactly
/// so, and nothing else.
pub open spec fn decode_method(method: Seq<char>) -> MethodOverrideView {
    if method == PUT@ {
        MethodOverrideView::Toggle
    } else if method == DELETE@ {
        MethodOverrideView::Delete
    } else {
        MethodOverrideView::Invalid(method)
    }
}

impl UpdateForm {
    /// The method this form stands for.
    pub fn method_override(&self) -> (method: MethodOverride)
        ensures
            method@ == decode_method(self._method@),
    {
        let put = PUT.to_owned();
        let delete = DELETE.to_owned();
        if self._method == put {
            MethodOverride::Toggle
        } else if self._method == delete {
            MethodOverride::Delete
        } else {
            MethodOverride::Invalid(self._method.clone())
        }
    }
}

/// The first step of changing a task: the store is asked to toggle or to
/// delete it, or the method is turned down by name.
pub open spec fn update_step(id: i32, method: MethodOverrideView) -> StepView {
    match method {
        MethodOverrideView::Toggle => StepView::Ask(StoreCallView::Toggle(id)),
        MethodOverrideView::Delete => StepView::Ask(StoreCallView::Delete(id)),
        MethodOverrideView::Invalid(method) => StepView::Respond(
            Err(FailureView::UnsupportedMethod(method)),
        ),
    }
}

/// Changes a task, first step: the form says whether the task that the
/// path names is to be toggled or deleted.
pub fn update(params: UpdateParams, form: UpdateForm) -> (step: Step)
    ensures
        step@ == update_step(params.id, decode_method(form._method@)),
{
    match form.method_override() {
        MethodOverride::Toggle => Step::Ask(StoreCall::Toggle(params.id)),
        MethodOverride::Delete => Step::Ask(StoreCall::Delete(params.id)),
        MethodOverride::Invalid(method) => Step::Respond(Err(Failure::UnsupportedMethod(method))),
    }
}

/// Toggles a task, second step. `result` is what the store's `Toggle` came
/// to. No flash message is sent, whichever way it went.
pub fn toggle(result: Result<(), StoreError>) -> (outcome: Result<Response, Failure>)
    ensures
        outcome_view(outcome) == changed_outcome(done(result)),
{
    match result {
        Err(error) => Err(Failure::StoreFailure(error)),
        Ok(_) => Ok(redirect_to(HOME)),
    }
}

/// The flash messages after the store was asked to delete a task: a success
/// message if it did.
pub open spec fn deleted_flash(
    result: Result<(), StoreErrorView>,
    flash: FlashChannelView,
) -> FlashChannelView {
    match result {
        Ok(_) => sent(flash, Level::Success, TASK_DELETED@),
        Err(_) => flash,
    }
}

/// Deletes a task, second step. `result` is what the store's `Delete` came
/// to.
pub fn delete(result: Result<(), StoreError>, flash: &mut FlashChannel) -> (outcome: Result<
    Response,
    Failure,
>)
    ensures
        outcome_view(outcome) == changed_outcome(done(result)),
        final(flash)@ == deleted_flash(done(result), old(flash)@),
{
    match result {
        Err(error) => Err(Failure::StoreFailure(error)),
        Ok(_) => {
            flash.send(Level::Success, TASK_DELETED);
            Ok(redirect_to(HOME))
        },
    }
}

/// Where the fixed document for answers of status 400 is kept.
pub const BAD_REQUEST_PAGE: &'static str = "static/errors/400.html";

/// Where the fixed document for answers of status 404 is kept.
pub const NOT_FOUND_PAGE: &'static str = "static/errors/404.html";

/// Where the fixed document for answers of status 500 is kept.
pub const INTERNAL_SERVER_ERROR_PAGE: &'static str = "static/errors/500.html";

/// The fixed documents that are shown in place of a failed request's own
/// answer, each as far as it could be loaded.
#[derive(Debug, Clone, PartialEq, Eq)]
pub struct ErrorPages {
    /// What [`BAD_REQUEST_PAGE`] holds.
    pub bad_request: Option<String>,
    /// What [`NOT_FOUND_PAGE`] holds.
    pub not_found: Option<String>,
    /// What [`INTERNAL_SERVER_ERROR_PAGE`] holds.
    pub internal_server_error: Option<String>,
}

/// The fixed documents as specifications see them.
pub ghost struct ErrorPagesView {
    pub bad_request: Option<Seq<char>>,
    pub not_found: Option<Seq<char>>,
    pub internal_server_error: Option<Seq<char>>,
}

/// A text that may be missing, as specifications see it.
pub open spec fn text_view(text: Option<String>) -> Option<Seq<char>> {
    match text {
        Some(text) => Some(text@),
        None => None,
    }
}

impl View for ErrorPages {
    type V = ErrorPagesView;

    open spec fn view(&self) -> ErrorPagesView {
        ErrorPagesView {
            bad_request: text_view(self.bad_request),
            not_found: text_view(self.not_found),
            internal_server_error: text_view(self.internal_server_error),
        }
    }
}

/// An answer whose body was replaced by a fixed document: the status stays,
/// the document is the whole body, and no header of the answer it replaces
/// is kept. Where the document kept at `path` could not be loaded, that is
/// a failure of its own.
pub open spec fn substituted(status: u16, document: Option<Seq<char>>, path: Seq<char>) -> Result<
    ResponseView,
    FailureView,
> {
    match document {
        Some(body) => Ok(plain(status, body)),
        None => Err(FailureView::StaticAssetMissing(path)),
    }
}

/// Puts a fixed document in the place of an answer's body.
fn substitute(res: Response, document: &Option<String>, path: &str) -> (outcome: Result<
    Response,
    Failure,
>)
    ensures
        outcome_view(outcome) == substituted(res.status, text_view(*document), path@),
{
    match document {
        Some(body) => Ok(Response::with_status(res.status, body.clone())),
        None => Err(Failure::StaticAssetMissing(path.to_owned())),
    }
}

/// Replaces the body of an answer by the document for bad requests. The
/// status stays what it was.
pub fn bad_request(res: Response, pages: &ErrorPages) -> (outcome: Result<Response, Failure>)
    ensures
        outcome_view(outcome) == substituted(res.status, pages@.bad_request, BAD_REQUEST_PAGE@),
{
    substitute(res, &pages.bad_request, BAD_REQUEST_PAGE)
}

/// Replaces the body of an answer by the document for what was not found.
/// The status stays what it was.
pub fn not_found(res: Response, pages: &ErrorPages) -> (outcome: Result<Response, Failure>)
    ensures
        outcome_view(outcome) == substituted(res.status, pages@.not_found, NOT_FOUND_PAGE@),
{
    substitute(res, &pages.not_found, NOT_FOUND_PAGE)
}

/// Replaces the body of an answer by the document for failures of the
/// server. The status stays what it was.
pub fn internal_server_error(res: Response, pages: &ErrorPages) -> (outcome: Result<
    Response,
    Failure,
>)
    ensures
        outcome_view(outcome) == substituted(
            res.status,
            pages@.internal_server_error,
            INTERNAL_SERVER_ERROR_PAGE@,
        ),
{
    substitute(res, &pages.internal_server_error, INTERNAL_SERVER_ERROR_PAGE)
}

/// What becomes of an answer on its way out: one of status 400, 404 or 500
/// has its body replaced by the document for that status, any other goes
/// out as it is.
pub open spec fn intercepted(res: ResponseView, pages: ErrorPagesView) -> Result<
    ResponseView,
    FailureView,
> {
    if res.status == BAD_REQUEST {
        substituted(res.status, pages.bad_request, BAD_REQUEST_PAGE@)
    } else if res.status == NOT_FOUND {
        substituted(res.status, pages.not_found, NOT_FOUND_PAGE@)
    } else if res.status == INTERNAL_SERVER_ERROR {
        substituted(res.status, pages.internal_server_error, INTERNAL_SERVER_ERROR_PAGE@)
    } else {
        Ok(res)
    }
}

/// Looks at the status of an answer that is about to go out, whichever
/// handler made it, and replaces the body where the status calls for it.
pub fn intercept(res: Response, pages: &ErrorPages) -> (outcome: Result<Response, Failure>)
    ensures
        outcome_view(outcome) == intercepted(res@, pages@),
{
    if res.status == BAD_REQUEST {
        bad_request(res, pages)
    } else if res.status == NOT_FOUND {
        not_found(res, pages)
    } else if res.status == INTERNAL_SERVER_ERROR {
        internal_server_error(res, pages)
    } else {
        Ok(res)
    }
}

/// The answer that goes out for an outcome. A failure is first turned into
/// its own answer, and that answer is intercepted like any other. A missing
/// document is a failure too, but its answer goes out as it is: it is not
/// intercepted again.
pub open spec fn responded(outcome: Result<ResponseView, FailureView>, pages: ErrorPagesView) -> ResponseView {
    let first = match outcome {
        Ok(response) => response,
        Err(failure) => failure_response(failure),
    };
    match intercepted(first, pages) {
        Ok(response) => response,
        Err(failure) => failure_response(failure),
    }
}

/// The answer that goes out for an outcome.
pub fn respond(outcome: Result<Response, Failure>, pages: &ErrorPages) -> (response: Response)
    ensures
        response@ == responded(outcome_view(outcome), pages@),
{
    let first = match outcome {
        Ok(response) => response,
        Err(failure) => failure.response(),
    };
    match intercept(first, pages) {
        Ok(response) => response,
        Err(failure) => failure.response(),
    }
}

} // verus!
