//! Errors that route handlers turn into HTTP responses.

use vstd::prelude::*;
use vstd::string::StringExecFns;

verus! {

/// Something that a route handler can report as an HTTP status and a message.
pub trait IntoHandlerError: Sized {
    /// The HTTP status code this error is reported with.
    spec fn handler_status(&self) -> u16;

    /// The message this error is reported with.
    spec fn handler_message(&self) -> Seq<char>;

    /// Consume self and return an HTTP status code and an owned message.
    fn status_and_message(self) -> (r: (u16, String))
        ensures
            r.0 == self.handler_status(),
            r.1@ == self.handler_message(),
    ;
}

/// Errors that are the user's fault (and which they therefore might be able
/// to do something about).
#[derive(Clone, Debug)]
pub enum UserError {
    Dogear404,
    DogearNonMatching { url: String, prefix: String },
    DogearExists { prefix: String },
    DogearInvalidUrl { url: String },
    /// The Origin header of a request could not be turned back into a
    /// header value.
    HttpFucked,
    Impossible(&'static str),
    PageOversize,
    BadUsername { name: String },
    BlankPassword,
    UserExists { name: String },
}

/// The HTTP status of each [`UserError`].
pub open spec fn user_error_status(e: UserError) -> u16 {
    match e {
        UserError::Dogear404 => 404,
        UserError::DogearNonMatching { .. } => 400,
        UserError::DogearExists { .. } => 409,
        UserError::DogearInvalidUrl { .. } => 400,
        UserError::HttpFucked => 418,
        UserError::Impossible(_) => 500,
        UserError::PageOversize => 400,
        UserError::BadUsername { .. } => 400,
        UserError::BlankPassword => 400,
        UserError::UserExists { .. } => 409,
    }
}

/// The message of each [`UserError`].
pub open spec fn user_error_text(e: UserError) -> Seq<char> {
    match e {
        UserError::Dogear404 => "dogear not found"@,
        UserError::DogearNonMatching { url, prefix } => "The provided URL ("@ + url@
            + ") doesn't match the provided prefix ("@ + prefix@ + ")"@,
        UserError::DogearExists { prefix } => "You already have a bookmark with that prefix: "@
            + prefix@,
        UserError::DogearInvalidUrl { url } => "Can't bookmark an invalid or non-http(s) URL: "@
            + url@,
        UserError::HttpFucked => "That HTTP request was mangled in a way most would believe impossible. Good work, but also I can't do anything with it."@,
        UserError::Impossible(what) => "Something impossible happened: "@ + what@,
        UserError::PageOversize => "Requested page size is too large"@,
        UserError::BadUsername { name } => "Usernames can only use letters, numbers, hyphens, and underscores, and can be at most 80 characters long: "@
            + name@,
        UserError::BlankPassword => "Password can't be blank"@,
        UserError::UserExists { name } => "There's already a user with that name: "@ + name@,
    }
}

/// A literal followed by a text.
fn concat2(a: &str, b: &str) -> (r: String)
    ensures
        r@ == a@ + b@,
{
    let mut r = String::from_str(a);
    r.append(b);
    r
}

impl UserError {
    /// The human-readable message of this error.
    pub fn message(&self) -> (m: String)
        ensures
            m@ == user_error_text(*self),
    {
        match self {
            UserError::Dogear404 => String::from_str("dogear not found"),
            UserError::DogearNonMatching { url, prefix } => {
                let mut m = concat2("The provided URL (", url.as_str());
                m.append(") doesn't match the provided prefix (");
                m.append(prefix.as_str());
                m.append(")");
                m
            },
            UserError::DogearExists { prefix } => concat2(
                "You already have a bookmark with that prefix: ",
                prefix.as_str(),
            ),
            UserError::DogearInvalidUrl { url } => concat2(
                "Can't bookmark an invalid or non-http(s) URL: ",
                url.as_str(),
            ),
            UserError::HttpFucked => String::from_str(
                "That HTTP request was mangled in a way most would believe impossible. Good work, but also I can't do anything with it.",
            ),
            UserError::Impossible(what) => concat2("Something impossible happened: ", what),
            UserError::PageOversize => String::from_str("Requested page size is too large"),
            UserError::BadUsername { name } => concat2(
                "Usernames can only use letters, numbers, hyphens, and underscores, and can be at most 80 characters long: ",
                name.as_str(),
            ),
            UserError::BlankPassword => String::from_str("Password can't be blank"),
            UserError::UserExists { name } => concat2(
                "There's already a user with that name: ",
                name.as_str(),
            ),
        }
    }

    /// The HTTP status code of this error.
    pub fn status(&self) -> (s: u16)
        ensures
            s == user_error_status(*self),
    {
        match self {
            UserError::Dogear404 => 404,
            UserError::DogearNonMatching { .. } => 400,
            UserError::DogearExists { .. } => 409,
            UserError::DogearInvalidUrl { .. } => 400,
            UserError::HttpFucked => 418,
            UserError::Impossible(_) => 500,
            UserError::PageOversize => 400,
                UserError::BadUsername { .. } => 400,
            UserError::BlankPassword => 400,
            UserError::UserExists { .. } => 409,
        }
    }
}

impl IntoHandlerError for UserError {
    open spec fn handler_status(&self) -> u16 {
        user_error_status(*self)
    }

    open spec fn handler_message(&self) -> Seq<char> {
        user_error_text(*self)
    }

    fn status_and_message(self) -> (r: (u16, String)) {
        let status = self.status();
        (status, self.message())
    }
}

/// A server-side failure (database, templates, ...), reported as a 500 with
/// the failure's own description.
#[derive(Clone, Debug)]
pub struct ServerError(pub String);

impl IntoHandlerError for ServerError {
    open spec fn handler_status(&self) -> u16 {
        500
    }

    open spec fn handler_message(&self) -> Seq<char> {
        self.0@
    }

    fn status_and_message(self) -> (r: (u16, String)) {
        (500, self.0)
    }
}

/// Helper enum for when a given function might return errors from
/// two separate domains (server errors that should be masked, and user
/// errors that should be elaborated).
#[derive(Clone, Debug)]
pub enum MixedError<T> {
    User(UserError),
    Server(T),
}

impl<T: IntoHandlerError> IntoHandlerError for MixedError<T> {
    open spec fn handler_status(&self) -> u16 {
        match self {
            MixedError::User(e) => user_error_status(*e),
            MixedError::Server(e) => e.handler_status(),
        }
    }

    open spec fn handler_message(&self) -> Seq<char> {
        match self {
            MixedError::User(e) => user_error_text(*e),
            MixedError::Server(e) => e.handler_message(),
        }
    }

    fn status_and_message(self) -> (r: (u16, String)) {
        match self {
            MixedError::User(e) => e.status_and_message(),
            MixedError::Server(e) => e.status_and_message(),
        }
    }
}

impl<T> MixedError<T> {
    /// A user error, in the mixed domain.
    pub fn from_user(value: UserError) -> (r: Self)
        ensures
            r == MixedError::<T>::User(value),
    {
        MixedError::User(value)
    }
}

} // verus!
