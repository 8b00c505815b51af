//! What can go wrong while a request is handled, and the answer each
//! failure gives before the fixed error documents are put in.

use vstd::prelude::*;
use vstd::string::StringExecFns;
use crate::response::{plain, Response, ResponseView, BAD_REQUEST, INTERNAL_SERVER_ERROR};

verus! {

/// A failure of the data store.
#[derive(Debug, Clone, PartialEq, Eq)]
pub enum StoreError {
    /// No task has this id.
    NoSuchTask(i32),
    /// The store has no id left for a new task.
    Exhausted,
    /// A store outside this library failed; the text is its cause.
    Backend(String),
}

/// A store failure as specifications see it.
pub ghost enum StoreErrorView {
    NoSuchTask(i32),
    Exhausted,
    Backend(Seq<char>),
}

impl View for StoreError {
    type V = StoreErrorView;

    open spec fn view(&self) -> StoreErrorView {
        match self {
            StoreError::NoSuchTask(id) => StoreErrorView::NoSuchTask(*id),
            StoreError::Exhausted => StoreErrorView::Exhausted,
            StoreError::Backend(cause) => StoreErrorView::Backend(cause@),
        }
    }
}

/// The text of a store failure.
pub open spec fn store_error_message(error: StoreErrorView) -> Seq<char> {
    match error {
        StoreErrorView::NoSuchTask(_) => "No such task"@,
        StoreErrorView::Exhausted => "Task ids exhausted"@,
        StoreErrorView::Backend(cause) => cause,
    }
}

impl StoreError {
    /// The text of this failure.
    pub fn message(&self) -> (text: String)
        ensures
            text@ == store_error_message(self@),
    {
        match self {
            StoreError::NoSuchTask(_) => "No such task".to_owned(),
            StoreError::Exhausted => "Task ids exhausted".to_owned(),
            StoreError::Backend(cause) => cause.clone(),
        }
    }
}

/// Why a request was not served.
#[derive(Debug, Clone, PartialEq, Eq)]
pub enum Failure {
    /// The form asked for a method that is neither `put` nor `delete`; the
    /// text is what it asked for.
    UnsupportedMethod(String),
    /// The request did not carry the form that its route takes.
    MalformedForm,
    /// The data store failed.
    StoreFailure(StoreError),
    /// The page could not be rendered; the text is the cause.
    RenderFailure(String),
    /// A fixed error document could not be loaded; the text is where it is
    /// kept.
    StaticAssetMissing(String),
}

/// A failure as specifications see it.
pub ghost enum FailureView {
    UnsupportedMethod(Seq<char>),
    MalformedForm,
    StoreFailure(StoreErrorView),
    RenderFailure(Seq<char>),
    StaticAssetMissing(Seq<char>),
}

impl View for Failure {
    type V = FailureView;

    open spec fn view(&self) -> FailureView {
        match self {
            Failure::UnsupportedMethod(method) => FailureView::UnsupportedMethod(method@),
            Failure::MalformedForm => FailureView::MalformedForm,
            Failure::StoreFailure(error) => FailureView::StoreFailure(error@),
            Failure::RenderFailure(cause) => FailureView::RenderFailure(cause@),
            Failure::StaticAssetMissing(path) => FailureView::StaticAssetMissing(path@),
        }
    }
}

/// The status a failure is answered with: a fault of the client is 400,
/// anything else 500.
pub open spec fn failure_status(error: FailureView) -> u16 {
    match error {
        FailureView::UnsupportedMethod(_) => BAD_REQUEST,
        FailureView::MalformedForm => BAD_REQUEST,
        FailureView::StoreFailure(_) => INTERNAL_SERVER_ERROR,
        FailureView::RenderFailure(_) => INTERNAL_SERVER_ERROR,
        FailureView::StaticAssetMissing(_) => INTERNAL_SERVER_ERROR,
    }
}

/// The text of a failure. That of an unsupported method names the method,
/// that of a missing document the place where it is kept.
pub open spec fn failure_message(error: FailureView) -> Seq<char> {
    match error {
        FailureView::UnsupportedMethod(method) => "Unsupported HTTP method: "@ + method,
        FailureView::MalformedForm => "Malformed form"@,
        FailureView::StoreFailure(error) => store_error_message(error),
        FailureView::RenderFailure(cause) => cause,
        FailureView::StaticAssetMissing(path) => "Missing static asset: "@ + path,
    }
}

/// The answer a failure gives: its status, and its text as the body.
pub open spec fn failure_response(error: FailureView) -> ResponseView {
    plain(failure_status(error), failure_message(error))
}

impl Failure {
    /// The status this failure is answered with.
    pub fn status(&self) -> (status: u16)
        ensures
            status == failure_status(self@),
    {
        match self {
            Failure::UnsupportedMethod(_) => BAD_REQUEST,
            Failure::MalformedForm => BAD_REQUEST,
            Failure::StoreFailure(_) => INTERNAL_SERVER_ERROR,
            Failure::RenderFailure(_) => INTERNAL_SERVER_ERROR,
            Failure::StaticAssetMissing(_) => INTERNAL_SERVER_ERROR,
        }
    }

    /// The text of this failure.
    pub fn message(&self) -> (text: String)
        ensures
            text@ == failure_message(self@),
    {
        match self {
            Failure::UnsupportedMethod(method) => {
                "Unsupported HTTP method: ".to_owned().concat(method.as_str())
            },
            Failure::MalformedForm => "Malformed form".to_owned(),
            Failure::StoreFailure(error) => error.message(),
            Failure::RenderFailure(cause) => cause.clone(),
            Failure::StaticAssetMissing(path) => {
                "Missing static asset: ".to_owned().concat(path.as_str())
            },
        }
    }

    /// The answer this failure gives.
    pub fn response(&self) -> (response: Response)
        ensures
            response@ == failure_response(self@),
    {
        Response::with_status(self.status(), self.message())
    }
}

} // verus!
