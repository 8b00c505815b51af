use actix_todo::error::{Failure, StoreError};
use actix_todo::response::Response;

#[test]
fn store_error_messages() {
    assert_eq!(StoreError::NoSuchTask(3).message(), "No such task");
    assert_eq!(StoreError::Exhausted.message(), "Task ids exhausted");
    assert_eq!(StoreError::Backend("pool timed out".to_string()).message(), "pool timed out");
}

#[test]
fn client_faults_are_400() {
    assert_eq!(Failure::UnsupportedMethod("x".to_string()).status(), 400);
    assert_eq!(Failure::MalformedForm.status(), 400);
}

#[test]
fn server_faults_are_500() {
    assert_eq!(Failure::StoreFailure(StoreError::Exhausted).status(), 500);
    assert_eq!(Failure::RenderFailure("x".to_string()).status(), 500);
    assert_eq!(Failure::StaticAssetMissing("p".to_string()).status(), 500);
}

#[test]
fn failure_messages() {
    assert_eq!(
        Failure::UnsupportedMethod("patch".to_string()).message(),
        "Unsupported HTTP method: patch"
    );
    assert_eq!(Failure::UnsupportedMethod(String::new()).message(), "Unsupported HTTP method: ");
    assert_eq!(Failure::MalformedForm.message(), "Malformed form");
    assert_eq!(Failure::StoreFailure(StoreError::NoSuchTask(1)).message(), "No such task");
    assert_eq!(Failure::RenderFailure("bad template".to_string()).message(), "bad template");
    assert_eq!(
        Failure::StaticAssetMissing("static/errors/500.html".to_string()).message(),
        "Missing static asset: static/errors/500.html"
    );
}

#[test]
fn failure_response_has_status_and_message() {
    assert_eq!(
        Failure::UnsupportedMethod("patch".to_string()).response(),
        Response { status: 400, location: None, body: "Unsupported HTTP method: patch".to_string() }
    );
    assert_eq!(
        Failure::StoreFailure(StoreError::Backend("down".to_string())).response(),
        Response { status: 500, location: None, body: "down".to_string() }
    );
}

#[test]
fn response_constructors() {
    assert_eq!(
        Response::ok("body".to_string()),
        Response { status: 200, location: None, body: "body".to_string() }
    );
    assert_eq!(
        Response::with_status(404, String::new()),
        Response { status: 404, location: None, body: String::new() }
    );
}
