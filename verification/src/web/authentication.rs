//! Who is making a request, and what they may do.
//!
//! A login session carries every permission its user has; an API token
//! carries only its scope. When a request carries both, the token wins.

use crate::db::tokens::scope_from_text;
use crate::db::{Session, Token, TokenScope, User};
use crate::text::{str_eq, str_starts_with, str_trim, starts_with_spec, trim_spec};
use crate::thirdparty::arc_clone;
use crate::web::templates::Common;
use crate::web::web_result::{ApiError, AppError, AppErrorKind};
use std::sync::Arc;
use vstd::prelude::*;
use vstd::string::{StrSliceExecFns, StringExecFns};

verus! {

/// The authenticated user of a request.
#[derive(Clone, Debug)]
pub enum AuthAny {
    Session { user: Arc<User>, session: Arc<Session> },
    Token { user: Arc<User>, token: Arc<Token> },
}

/// Whether an authentication passes a route that accepts the given token
/// scopes: a session always does; a token does when its scope is listed.
pub open spec fn auth_allows(auth: AuthAny, scopes: Seq<TokenScope>) -> bool {
    match auth {
        AuthAny::Session { .. } => true,
        AuthAny::Token { token, .. } => scopes.contains(scope_from_text(token.scope@)),
    }
}

/// The user an authentication belongs to.
pub open spec fn auth_user(auth: AuthAny) -> User {
    match auth {
        AuthAny::Session { user, .. } => *user,
        AuthAny::Token { user, .. } => *user,
    }
}

/// The message of the 403 for a token with the wrong scope.
pub open spec fn wrong_scope_message() -> Seq<char> {
    "The provided authentication token doesn't have the right permissions to perform this action."@
}

impl AuthAny {
    /// Early-out 403 for routes that only allow specific token scopes. A
    /// login session has a superset of all possible token permissions for
    /// its user, so session auth is always allowed through. The error is
    /// always JSON: it only happens when a valid token was provided, which
    /// means an API request.
    pub fn allowed_scopes(&self, scopes: &[TokenScope]) -> (r: Result<(), ApiError>)
        ensures
            r is Ok <==> auth_allows(*self, scopes@),
            r matches Err(e) ==> e.0.status == 403 && e.0.kind == AppErrorKind::Json
                && e.0.message@ == wrong_scope_message(),
    {
        match self {
            AuthAny::Session { .. } => Ok(()),
            AuthAny::Token { token, .. } => {
                let scope = token.scope();
                let mut i: usize = 0;
                while i < scopes.len()
                    invariant
                        i <= scopes@.len(),
                        auth_allows(*self, scopes@) <==> scopes@.contains(scope),
                        forall|k: int| 0 <= k < i ==> scopes@[k] != scope,
                    decreases scopes@.len() - i,
                {
                    if scopes[i] == scope {
                        assert(scopes@[i as int] == scope);
                        assert(scopes@.contains(scope));

                        return Ok(());
                    }
                    i = i + 1;
                }
                Err(
                    ApiError::new(
                        403,
                        String::from_str(
                            "The provided authentication token doesn't have the right permissions to perform this action.",
                        ),
                    ),
                )
            },
        }
    }

    /// The authenticated user, without a match.
    pub fn user(&self) -> (u: Arc<User>)
        ensures
            *u == auth_user(*self),
    {
        match self {
            AuthAny::Session { user, .. } => arc_clone(user),
            AuthAny::Token { user, .. } => arc_clone(user),
        }
    }

    /// The session authentication, if this is one.
    pub fn session_auth(&self) -> (r: Option<AuthSession>)
        ensures
            r is Some <==> *self is Session,
            r matches Some(a) ==> *self == (AuthAny::Session { user: a.user, session: a.session }),
    {
        match self {
            AuthAny::Session { user, session } => Some(
                AuthSession { user: arc_clone(user), session: arc_clone(session) },
            ),
            AuthAny::Token { .. } => None,
        }
    }
}

/// A login-session authentication: what most web page routes require.
#[derive(Clone, Debug)]
pub struct AuthSession {
    pub user: Arc<User>,
    pub session: Arc<Session>,
}

impl AuthSession {
    /// The common template args, mostly loaned out of the auth session.
    pub fn common_args<'a>(&'a self, title: &'a str) -> (c: Common<'a>)
        ensures
            c.title == title,
            c.user == Some(&*self.user),
            c.csrf_token@ == self.session.csrf_token@,
    {
        Common { title, user: Some(&*self.user), csrf_token: self.session.csrf_token.as_str() }
    }
}

/// True if a header value is legible text (given as `Some`) AND equals the
/// provided text.
pub fn header_val_matches(val: Option<&str>, text: &str) -> (r: bool)
    ensures
        r == (val matches Some(v) && v@ == text@),
{
    match val {
        Some(v) => str_eq(v, text),
        None => false,
    }
}

/// Whether errors should be JSON: the Accept header, or else the
/// Content-Type header, says `application/json`.
pub open spec fn wants_json(accept: Option<Seq<char>>, content_type: Option<Seq<char>>) -> bool {
    accept == Some("application/json"@) || content_type == Some("application/json"@)
}

/// Pick the error body kind from the Accept and Content-Type headers (each
/// given as its text, when present and legible); HTML by default.
pub fn error_kind_from_headers(accept: Option<&str>, content_type: Option<&str>) -> (k:
    AppErrorKind)
    ensures
        k == if wants_json(crate::util::opt_view(accept), crate::util::opt_view(content_type)) {
            AppErrorKind::Json
        } else {
            AppErrorKind::Html
        },
{
    if header_val_matches(accept, "application/json") {
        return AppErrorKind::Json;
    }
    if header_val_matches(content_type, "application/json") {
        return AppErrorKind::Json;
    }
    AppErrorKind::Html
}

/// The `Bearer ` scheme of an Authorization header.
pub open spec fn bearer_prefix() -> Seq<char> {
    "Bearer "@
}

/// The token cleartext of an `Authorization: Bearer STUFF` header value:
/// what follows `Bearer `, trimmed.
pub fn bearer_token(auth_val: &str) -> (r: Option<&str>)
    ensures
        r is Some <==> starts_with_spec(auth_val@, bearer_prefix()),
        r matches Some(t) ==> t@ == trim_spec(auth_val@.skip(7)),
{
    proof {
        reveal_strlit("Bearer ");
    }
    if str_starts_with(auth_val, "Bearer ") {
        let rest = auth_val.substring_char(7, auth_val.unicode_len());
        assert(rest@ =~= auth_val@.skip(7));
        Some(str_trim(rest))
    } else {
        None
    }
}

/// The rejection of a route that needs any authentication.
pub fn any_auth_missing(kind: AppErrorKind) -> (e: AppError)
    ensures
        e.status == 401,
        e.kind == kind,
        e.message@ == "Either you aren't logged in, you forgot to pass a token, or your token is no longer valid."@,
{
    AppError::new(
        401,
        String::from_str(
            "Either you aren't logged in, you forgot to pass a token, or your token is no longer valid.",
        ),
        kind,
    )
}

/// The rejection of a route that needs a login session.
pub fn session_auth_missing(kind: AppErrorKind) -> (e: AppError)
    ensures
        e.status == 401,
        e.kind == kind,
        e.message@ == "You aren't logged in, so you can't do this. Go back and reload the page to start over."@,
{
    AppError::new(
        401,
        String::from_str(
            "You aren't logged in, so you can't do this. Go back and reload the page to start over.",
        ),
        kind,
    )
}

} // verus!
