//! Errors as route handlers report them: an HTTP status, a message, and
//! whether to render them as an HTML page or a JSON object.

use crate::thirdparty::{escape_safe_spec, html_escape_safe_into};
use crate::util::error::IntoHandlerError;
use vstd::prelude::*;
use vstd::string::StringExecFns;

verus! {

/// Which kind of body an error is rendered as.
#[derive(Clone, Copy, PartialEq, Eq, Structural, Debug)]
pub enum AppErrorKind {
    Html,
    Json,
}

/// An error that can be displayed as either an HTML error page, or a JSON
/// error object.
#[derive(Clone, Debug)]
pub struct AppError {
    pub message: String,
    pub status: u16,
    pub kind: AppErrorKind,
}

impl AppError {
    pub fn new(status: u16, message: String, kind: AppErrorKind) -> (e: Self)
        ensures
            e.status == status,
            e.message == message,
            e.kind == kind,
    {
        Self { status, message, kind }
    }
}

/// The body of a JSON error: `{ "error": "blah blah" }`.
#[derive(Clone, Debug)]
pub struct RawJsonError {
    pub error: String,
}

/// What is shown instead of the details of a 500 error in production.
pub open spec fn masked_500_message() -> Seq<char> {
    "The server had a problem and couldn't recover. This is\n                probably a bug in the site."@
}

/// The message an error response shows: in production, the details of a
/// 500 error are suppressed (they could be pretty much anything); other
/// errors, and everything outside production, show their own message.
pub open spec fn displayed_message_spec(production: bool, status: u16, message: Seq<char>) -> Seq<
    char,
> {
    if production && status == 500 {
        masked_500_message()
    } else {
        message
    }
}

/// The message an error response shows; see [`displayed_message_spec`].
pub fn displayed_message(production: bool, status: u16, message: String) -> (r: String)
    ensures
        r@ == displayed_message_spec(production, status, message@),
{
    if production && status == 500 {
        String::from_str(
            "The server had a problem and couldn't recover. This is\n                probably a bug in the site.",
        )
    } else {
        message
    }
}

/// The HTML fragment of an error page: the message, escaped, in a paragraph.
pub open spec fn error_fragment_spec(message: Seq<char>) -> Seq<char> {
    "<p>"@ + escape_safe_spec(message) + "</p>"@
}

/// The HTML fragment of an error page; see [`error_fragment_spec`].
pub fn error_fragment(message: &str) -> (r: String)
    ensures
        r@ == error_fragment_spec(message@),
{
    let mut text = String::from_str("<p>");
    html_escape_safe_into(message, &mut text);
    text.append("</p>");
    text
}

/// An [`AppError`] for handlers that return HTML web pages.
#[derive(Clone, Debug)]
pub struct WebError(pub AppError);

impl WebError {
    pub fn new(status: u16, message: String) -> (e: Self)
        ensures
            e.0.status == status,
            e.0.message == message,
            e.0.kind == AppErrorKind::Html,
    {
        Self(AppError::new(status, message, AppErrorKind::Html))
    }

    /// The page for any error a handler can report.
    pub fn from_handler_error<E: IntoHandlerError>(value: E) -> (e: Self)
        ensures
            e.0.status == value.handler_status(),
            e.0.message@ == value.handler_message(),
            e.0.kind == AppErrorKind::Html,
    {
        let (status, msg) = value.status_and_message();
        Self::new(status, msg)
    }
}

/// An [`AppError`] for routes that return JSON objects.
#[derive(Clone, Debug)]
pub struct ApiError(pub AppError);

impl ApiError {
    pub fn new(status: u16, message: String) -> (e: Self)
        ensures
            e.0.status == status,
            e.0.message == message,
            e.0.kind == AppErrorKind::Json,
    {
        Self(AppError::new(status, message, AppErrorKind::Json))
    }

    /// The JSON error for any error a handler can report.
    pub fn from_handler_error<E: IntoHandlerError>(value: E) -> (e: Self)
        ensures
            e.0.status == value.handler_status(),
            e.0.message@ == value.handler_message(),
            e.0.kind == AppErrorKind::Json,
    {
        let (status, msg) = value.status_and_message();
        Self::new(status, msg)
    }
}

} // verus!
