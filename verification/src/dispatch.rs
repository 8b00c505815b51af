//! From a routed request to its first step.

use vstd::prelude::*;
use crate::api::{
    create, create_flash, create_step, decode_method, update, update_step, CreateForm, Step,
    StepView, UpdateForm,
};
use crate::error::{Failure, FailureView};
use crate::flash::{FlashChannel, FlashChannelView};
use crate::response::{plain, Response, METHOD_NOT_ALLOWED, NOT_FOUND};
use crate::router::Route;
use crate::store::{StoreCall, StoreCallView};

verus! {

/// The form that came with a request, decoded.
#[derive(Debug, Clone, PartialEq, Eq)]
pub enum Form {
    /// No form, or one that is neither of the two below.
    Empty,
    /// A form with a `description`.
    Create(CreateForm),
    /// A form with a `_method`.
    Update(UpdateForm),
}

/// A form as specifications see it: its one field.
pub ghost enum FormView {
    Empty,
    Create(Seq<char>),
    Update(Seq<char>),
}

impl View for Form {
    type V = FormView;

    open spec fn view(&self) -> FormView {
        match self {
            Form::Empty => FormView::Empty,
            Form::Create(form) => FormView::Create(form.description@),
            Form::Update(form) => FormView::Update(form._method@),
        }
    }
}

/// The step of a request that is turned away because its form is not the
/// one that its route takes.
pub open spec fn malformed() -> StepView {
    StepView::Respond(Err(FailureView::MalformedForm))
}

/// The first step of a request. The index page asks the store for every
/// task. Adding and changing a task go by their forms. A request that leads
/// nowhere is answered with its status and no body.
pub open spec fn begun_step(route: Route, form: FormView) -> StepView {
    match route {
        Route::Index => StepView::Ask(StoreCallView::ListAll),
        Route::Create => match form {
            FormView::Create(description) => create_step(description),
            _ => malformed(),
        },
        Route::Update(params) => match form {
            FormView::Update(method) => update_step(params.id, decode_method(method)),
            _ => malformed(),
        },
        Route::NotFound => StepView::Respond(Ok(plain(NOT_FOUND, Seq::empty()))),
        Route::MethodNotAllowed => StepView::Respond(Ok(plain(METHOD_NOT_ALLOWED, Seq::empty()))),
    }
}

/// The flash messages after the first step of a request: only a form
/// without a description sends one.
pub open spec fn begun_flash(route: Route, form: FormView, flash: FlashChannelView) -> FlashChannelView {
    match (route, form) {
        (Route::Create, FormView::Create(description)) => create_flash(description, flash),
        _ => flash,
    }
}

/// Takes the first step of a request that was routed to `route` and came
/// with `form`.
pub fn begin(route: Route, form: Form, flash: &mut FlashChannel) -> (step: Step)
    ensures
        step@ == begun_step(route, form@),
        final(flash)@ == begun_flash(route, form@, old(flash)@),
{
    match route {
        Route::Index => Step::Ask(StoreCall::ListAll),
        Route::Create => match form {
            Form::Create(params) => create(params, flash),
            _ => Step::Respond(Err(Failure::MalformedForm)),
        },
        Route::Update(params) => match form {
            Form::Update(form) => update(params, form),
            _ => Step::Respond(Err(Failure::MalformedForm)),
        },
        Route::NotFound => Step::Respond(Ok(Response::with_status(NOT_FOUND, String::new()))),
        Route::MethodNotAllowed => Step::Respond(
            Ok(Response::with_status(METHOD_NOT_ALLOWED, String::new())),
        ),
    }
}

} // verus!
