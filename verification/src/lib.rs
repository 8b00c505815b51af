//! The request-handling core of a small browser-facing task list.
//!
//! A request is routed ([`router`]), handled ([`api`]) and answered; the
//! answer of a failed request has its body replaced by a fixed document.
//! Handlers never touch the data store themselves: they say which store
//! operation they need and go on from its result, so the same verified
//! logic serves a database behind an async runtime and the in-memory
//! store of [`store`]. Nor do they render: the index handler fills the
//! template's context, and whoever renders hands the result back. [`site`] joins the pieces into a whole site held in
//! memory, and [`guarantees`] states what holds of every run of it.

pub mod api;
pub mod dispatch;
pub mod error;
pub mod flash;
pub mod guarantees;
pub mod model;
pub mod response;
pub mod router;
pub mod site;
pub mod store;
pub mod template;
pub mod text;
