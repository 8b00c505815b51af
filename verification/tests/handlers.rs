use actix_todo::api::{
    create, created, delete, index, index_context, index_response, redirect_to, toggle, update,
    CreateForm, MethodOverride, Page, Step, UpdateForm, UpdateParams, EMPTY_DESCRIPTION, HOME,
    INDEX_TEMPLATE, TASK_ADDED, TASK_DELETED,
};
use actix_todo::error::{Failure, StoreError};
use actix_todo::flash::{FlashChannel, FlashMessage, Level};
use actix_todo::model::Task;
use actix_todo::response::Response;
use actix_todo::store::StoreCall;

const PAGE: &str = "{% for task in tasks %}[{{ task.id }}|{{ task.description }}|{% if task.completed %}done{% else %}open{% endif %}]{% endfor %}{% if msg %}<{{ msg.0 }}:{{ msg.1 }}>{% endif %}";

fn templates() -> tera::Tera {
    let mut templates = tera::Tera::default();
    templates.add_raw_template(INDEX_TEMPLATE, PAGE).unwrap();
    templates
}

fn render(page: &Page, templates: &tera::Tera) -> Result<String, String> {
    templates.render(page.template, &page.context).map_err(|error| error.to_string())
}

fn show(tasks: Vec<Task>, flash: &mut FlashChannel, templates: &tera::Tera) -> Result<Response, Failure> {
    let page = index(Ok(tasks), flash)?;
    index_response(render(&page, templates))
}

fn home() -> Response {
    Response { status: 302, location: Some("/".to_string()), body: String::new() }
}

fn two_tasks() -> Vec<Task> {
    vec![
        Task { id: 1, description: "Buy milk".to_string(), completed: false },
        Task { id: 4, description: "Walk".to_string(), completed: true },
    ]
}

#[test]
fn redirect_is_302_with_location_and_no_body() {
    let response = redirect_to("/somewhere");
    assert_eq!(response.status, 302);
    assert_eq!(response.location, Some("/somewhere".to_string()));
    assert_eq!(response.body, "");
}

#[test]
fn home_is_the_root_path() {
    assert_eq!(HOME, "/");
    assert_eq!(redirect_to(HOME), home());
}

#[test]
fn create_with_empty_description_redirects_with_error_flash() {
    let mut flash = FlashChannel::new(Vec::new());
    let step = create(CreateForm { description: String::new() }, &mut flash);
    assert_eq!(step, Step::Respond(Ok(home())));
    assert_eq!(
        flash.into_outgoing(),
        vec![FlashMessage { level: Level::Error, content: "Description cannot be empty".to_string() }]
    );
}

#[test]
fn create_with_description_asks_the_store() {
    let mut flash = FlashChannel::new(Vec::new());
    let step = create(CreateForm { description: "Buy milk".to_string() }, &mut flash);
    assert_eq!(step, Step::Ask(StoreCall::Create("Buy milk".to_string())));
    assert_eq!(flash.into_outgoing(), Vec::new());
}

#[test]
fn create_takes_a_blank_description_as_it_is() {
    let mut flash = FlashChannel::new(Vec::new());
    let step = create(CreateForm { description: " ".to_string() }, &mut flash);
    assert_eq!(step, Step::Ask(StoreCall::Create(" ".to_string())));
}

#[test]
fn created_sends_success_flash_and_redirects() {
    let mut flash = FlashChannel::new(Vec::new());
    let outcome = created(Ok(()), &mut flash);
    assert_eq!(outcome, Ok(home()));
    assert_eq!(
        flash.into_outgoing(),
        vec![FlashMessage { level: Level::Success, content: "Task successfully added".to_string() }]
    );
}

#[test]
fn created_after_store_failure_is_internal_error_without_flash() {
    let mut flash = FlashChannel::new(Vec::new());
    let outcome = created(Err(StoreError::Backend("down".to_string())), &mut flash);
    assert_eq!(outcome, Err(Failure::StoreFailure(StoreError::Backend("down".to_string()))));
    assert_eq!(outcome.unwrap_err().status(), 500);
    assert_eq!(flash.into_outgoing(), Vec::new());
}

#[test]
fn flash_texts_are_fixed() {
    assert_eq!(EMPTY_DESCRIPTION, "Description cannot be empty");
    assert_eq!(TASK_ADDED, "Task successfully added");
    assert_eq!(TASK_DELETED, "Task was deleted.");
}

#[test]
fn method_override_is_decoded() {
    assert_eq!(UpdateForm { _method: "put".to_string() }.method_override(), MethodOverride::Toggle);
    assert_eq!(
        UpdateForm { _method: "delete".to_string() }.method_override(),
        MethodOverride::Delete
    );
    assert_eq!(
        UpdateForm { _method: "patch".to_string() }.method_override(),
        MethodOverride::Invalid("patch".to_string())
    );
    assert_eq!(
        UpdateForm { _method: "PUT".to_string() }.method_override(),
        MethodOverride::Invalid("PUT".to_string())
    );
    assert_eq!(
        UpdateForm { _method: String::new() }.method_override(),
        MethodOverride::Invalid(String::new())
    );
}

#[test]
fn update_with_put_asks_for_toggle() {
    let step = update(UpdateParams { id: 7 }, UpdateForm { _method: "put".to_string() });
    assert_eq!(step, Step::Ask(StoreCall::Toggle(7)));
}

#[test]
fn update_with_delete_asks_for_delete() {
    let step = update(UpdateParams { id: -3 }, UpdateForm { _method: "delete".to_string() });
    assert_eq!(step, Step::Ask(StoreCall::Delete(-3)));
}

#[test]
fn update_with_other_method_is_bad_request_naming_it() {
    let step = update(UpdateParams { id: 7 }, UpdateForm { _method: "patch".to_string() });
    assert_eq!(step, Step::Respond(Err(Failure::UnsupportedMethod("patch".to_string()))));
    let failure = Failure::UnsupportedMethod("patch".to_string());
    assert_eq!(failure.status(), 400);
    assert_eq!(failure.message(), "Unsupported HTTP method: patch");
}

#[test]
fn toggle_redirects() {
    assert_eq!(toggle(Ok(())), Ok(home()));
}

#[test]
fn toggle_after_store_failure_is_internal_error() {
    let outcome = toggle(Err(StoreError::NoSuchTask(9)));
    assert_eq!(outcome, Err(Failure::StoreFailure(StoreError::NoSuchTask(9))));
    assert_eq!(outcome.unwrap_err().status(), 500);
}

#[test]
fn delete_sends_success_flash_and_redirects() {
    let mut flash = FlashChannel::new(Vec::new());
    let outcome = delete(Ok(()), &mut flash);
    assert_eq!(outcome, Ok(home()));
    assert_eq!(
        flash.into_outgoing(),
        vec![FlashMessage { level: Level::Success, content: "Task was deleted.".to_string() }]
    );
}

#[test]
fn delete_after_store_failure_is_internal_error_without_flash() {
    let mut flash = FlashChannel::new(Vec::new());
    let outcome = delete(Err(StoreError::NoSuchTask(2)), &mut flash);
    assert_eq!(outcome, Err(Failure::StoreFailure(StoreError::NoSuchTask(2))));
    assert_eq!(flash.into_outgoing(), Vec::new());
}

#[test]
fn index_renders_tasks_and_flash() {
    let mut flash = FlashChannel::new(vec![FlashMessage::success("Task successfully added")]);
    let outcome = show(two_tasks(), &mut flash, &templates());
    let response = outcome.unwrap();
    assert_eq!(response.status, 200);
    assert_eq!(response.location, None);
    assert_eq!(
        response.body,
        "[1|Buy milk|open][4|Walk|done]<Success:Task successfully added>"
    );
    assert_eq!(flash.iterate(), Vec::new());
}

#[test]
fn index_without_flash_renders_no_message() {
    let mut flash = FlashChannel::new(Vec::new());
    let response = show(two_tasks(), &mut flash, &templates()).unwrap();
    assert_eq!(response.body, "[1|Buy milk|open][4|Walk|done]");
}

#[test]
fn index_without_tasks_renders_empty_list() {
    let mut flash = FlashChannel::new(Vec::new());
    let response = show(Vec::new(), &mut flash, &templates()).unwrap();
    assert_eq!(response.status, 200);
    assert_eq!(response.body, "");
}

#[test]
fn index_shows_latest_of_several_messages() {
    let mut flash = FlashChannel::new(vec![
        FlashMessage::success("first"),
        FlashMessage::error("second"),
    ]);
    let response = show(Vec::new(), &mut flash, &templates()).unwrap();
    assert_eq!(response.body, "<Error:second>");
}

#[test]
fn index_keeps_sent_messages() {
    let mut flash = FlashChannel::new(vec![FlashMessage::success("seen")]);
    flash.send(Level::Error, "later");
    index(Ok(Vec::new()), &mut flash).unwrap();
    assert_eq!(flash.into_outgoing(), vec![FlashMessage::error("later")]);
}

#[test]
fn index_after_store_failure_is_internal_error_and_leaves_flash() {
    let mut flash = FlashChannel::new(vec![FlashMessage::success("kept")]);
    let outcome = index(Err(StoreError::Backend("down".to_string())), &mut flash);
    assert_eq!(
        outcome.unwrap_err(),
        Failure::StoreFailure(StoreError::Backend("down".to_string()))
    );
    assert_eq!(flash.iterate(), vec![FlashMessage::success("kept")]);
}

#[test]
fn index_with_missing_template_is_render_failure() {
    let mut flash = FlashChannel::new(vec![FlashMessage::success("gone")]);
    let outcome = show(two_tasks(), &mut flash, &tera::Tera::default());
    let failure = outcome.unwrap_err();
    assert!(matches!(failure, Failure::RenderFailure(_)));
    assert_eq!(failure.status(), 500);
    assert_eq!(failure.message(), "Template 'index.html.tera' not found");
    assert_eq!(flash.iterate(), Vec::new());
}

#[test]
fn index_names_its_template_and_fills_its_context() {
    let mut flash = FlashChannel::new(vec![FlashMessage::success("hello")]);
    let page = index(Ok(two_tasks()), &mut flash).unwrap();
    assert_eq!(page.template, "index.html.tera");
    assert_eq!(page.template, INDEX_TEMPLATE);
    assert_eq!(page.context.get("tasks").unwrap().as_array().unwrap().len(), 2);
    let message = page.context.get("msg").unwrap().as_array().unwrap();
    assert_eq!(message[0].as_str(), Some("Success"));
    assert_eq!(message[1].as_str(), Some("hello"));
    assert_eq!(flash.iterate(), Vec::new());
}

#[test]
fn index_context_holds_tasks_as_objects() {
    let mut flash = FlashChannel::new(Vec::new());
    let context = index_context(&two_tasks(), &mut flash);
    let tasks = context.get("tasks").unwrap().as_array().unwrap();
    assert_eq!(tasks.len(), 2);
    let first = tasks[0].as_object().unwrap();
    assert_eq!(first.len(), 3);
    assert_eq!(first.get("id").unwrap().as_i64(), Some(1));
    assert_eq!(first.get("description").unwrap().as_str(), Some("Buy milk"));
    assert_eq!(first.get("completed").unwrap().as_bool(), Some(false));
    let second = tasks[1].as_object().unwrap();
    assert_eq!(second.get("id").unwrap().as_i64(), Some(4));
    assert_eq!(second.get("completed").unwrap().as_bool(), Some(true));
    assert!(!context.contains_key("msg"));
}

#[test]
fn index_context_holds_message_as_pair() {
    let mut flash = FlashChannel::new(vec![FlashMessage::error("a <b>")]);
    let context = index_context(&Vec::new(), &mut flash);
    let message = context.get("msg").unwrap().as_array().unwrap();
    assert_eq!(message.len(), 2);
    assert_eq!(message[0].as_str(), Some("Error"));
    assert_eq!(message[1].as_str(), Some("a <b>"));
    assert_eq!(context.get("tasks").unwrap().as_array().unwrap().len(), 0);
    assert_eq!(flash.iterate(), Vec::new());
}

#[test]
fn index_response_of_page_is_200() {
    assert_eq!(
        index_response(Ok("<html>".to_string())),
        Ok(Response { status: 200, location: None, body: "<html>".to_string() })
    );
}

#[test]
fn index_response_of_failure_is_render_failure() {
    assert_eq!(
        index_response(Err("broken".to_string())),
        Err(Failure::RenderFailure("broken".to_string()))
    );
}
