//! Request parameters and the decisions route handlers make about them:
//! form checks, redirect targets, CORS access and response statuses.

use crate::db::Dogear;
use crate::text::{str_eq, str_trim, trim_spec};
use crate::thirdparty::{url_join, url_join_spec, url_origin, url_parse_origin};
use crate::util::error::UserError;
use crate::util::{
    check_new_password, new_password_error_text, pagination_of, ListMeta, NewPasswordError,
    Pagination, PAGE_DEFAULT_SIZE,
};
use crate::web::web_result::{ApiError, AppErrorKind, WebError};
use vstd::prelude::*;
use vstd::string::StringExecFns;

verus! {

/// The phrase a user must type to delete their account.
pub const DELETE_ACCOUNT_CONFIRM_STRING: &'static str = "delete my account";

/// The `page` and `size` query parameters of a list.
#[derive(Clone, Copy, PartialEq, Eq, Structural, Debug)]
pub struct PaginationQuery {
    pub page: Option<u32>,
    pub size: Option<u32>,
}

impl PaginationQuery {
    /// The requested page; the first one by default.
    pub fn page(&self) -> (p: u32)
        ensures
            p == match self.page {
                Some(p) => p,
                None => 1,
            },
    {
        match self.page {
            Some(p) => p,
            None => 1,
        }
    }

    /// The requested page size; [`PAGE_DEFAULT_SIZE`] by default.
    pub fn size(&self) -> (s: u32)
        ensures
            s == match self.size {
                Some(s) => s,
                None => PAGE_DEFAULT_SIZE,
            },
    {
        match self.size {
            Some(s) => s,
            None => PAGE_DEFAULT_SIZE,
        }
    }
}

/// The create-a-dogear form. `Dogears::create` normalizes a blank display name.
#[derive(Clone, Debug)]
pub struct CreateParams {
    pub display_name: Option<String>,
    pub current: String,
    pub prefix: String,
    pub csrf_token: String,
}

/// The personal-bookmarklet button (sent as query parameters).
#[derive(Clone, Debug)]
pub struct PersonalMarkParams {
    pub csrf_token: String,
}

/// The logout button.
#[derive(Clone, Debug)]
pub struct LogoutParams {
    pub csrf_token: String,
}

/// The delete-account form.
#[derive(Clone, Debug)]
pub struct DeleteAccountParams {
    pub password: String,
    pub confirm_delete_account: String,
    pub csrf_token: String,
}

/// The login form.
#[derive(Clone, Debug)]
pub struct LoginParams {
    pub username: String,
    pub password: String,
    pub login_csrf_token: String,
    pub return_to: String,
}

/// The signup form.
#[derive(Clone, Debug)]
pub struct SignupParams {
    pub new_username: String,
    pub new_password: String,
    pub new_password_again: String,
    pub email: Option<String>,
    pub login_csrf_token: String,
}

/// The change-email form.
#[derive(Clone, Debug)]
pub struct ChangeEmailParams {
    pub password: String,
    pub new_email: Option<String>,
    pub csrf_token: String,
}

/// The change-password form.
#[derive(Clone, Debug)]
pub struct ChangePasswordParams {
    pub password: String,
    pub new_password: String,
    pub new_password_again: String,
    pub csrf_token: String,
}

/// The metadata of an API list response.
#[derive(Clone, Copy, PartialEq, Eq, Structural, Debug)]
pub struct ApiMeta {
    pub pagination: Pagination,
}

/// An API list of dogears.
#[derive(Clone, Debug)]
pub struct ApiDogearsList {
    pub data: Vec<Dogear>,
    pub meta: ApiMeta,
}

impl ApiDogearsList {
    pub fn new(dogears: Vec<Dogear>, list_meta: ListMeta) -> (l: Self)
        requires
            list_meta.size > 0,
        ensures
            l.data == dogears,
            l.meta.pagination == pagination_of(list_meta),
    {
        Self { data: dogears, meta: ApiMeta { pagination: list_meta.to_pagination() } }
    }
}

/// The body of an API create request.
#[derive(Clone, Debug)]
pub struct ApiCreatePayload {
    pub prefix: String,
    pub current: String,
    pub display_name: Option<String>,
}

/// The body of an API update request.
#[derive(Clone, Debug)]
pub struct ApiUpdatePayload {
    pub current: String,
}

/// The forms that logged-in users submit, each guarded by the session's
/// anti-CSRF token.
#[derive(Clone, Copy, PartialEq, Eq, Structural, Debug)]
pub enum SessionForm {
    Mark,
    PersonalMark,
    Logout,
    DeleteAccount,
    ChangeEmail,
    ChangePassword,
}

/// What a user is told when a session form's anti-CSRF token is wrong.
pub open spec fn stale_form_text(form: SessionForm) -> Seq<char> {
    match form {
        SessionForm::Mark => "The create-new-dogear form was stale or mangled.\n                Go back, refresh that page, and try marking your spot again."@,
        SessionForm::PersonalMark => "The bookmarklet generate button was stale or mangled.\n                Refresh the page and try generating again."@,
        SessionForm::Logout => "Something was wrong with that log out button! Go back to the\n                home page and try logging out again."@,
        SessionForm::DeleteAccount => "The delete account form you tried to use was stale, or\n                had been tampered with. Go back to the account page and try\n                deleting your account again."@,
        SessionForm::ChangeEmail => "The change email form you tried to use was stale, or\n                had been tampered with. Go back to the account page and try\n                changing your email again."@,
        SessionForm::ChangePassword => "The change password form you tried to use was stale, or\n                had been tampered with. Go back to the account page and try\n                changing your password again."@,
    }
}

impl SessionForm {
    /// What a user is told when this form's anti-CSRF token is wrong.
    pub fn stale_message(&self) -> (m: &'static str)
        ensures
            m@ == stale_form_text(*self),
    {
        match self {
            SessionForm::Mark => "The create-new-dogear form was stale or mangled.\n                Go back, refresh that page, and try marking your spot again.",
            SessionForm::PersonalMark => "The bookmarklet generate button was stale or mangled.\n                Refresh the page and try generating again.",
            SessionForm::Logout => "Something was wrong with that log out button! Go back to the\n                home page and try logging out again.",
            SessionForm::DeleteAccount => "The delete account form you tried to use was stale, or\n                had been tampered with. Go back to the account page and try\n                deleting your account again.",
            SessionForm::ChangeEmail => "The change email form you tried to use was stale, or\n                had been tampered with. Go back to the account page and try\n                changing your email again.",
            SessionForm::ChangePassword => "The change password form you tried to use was stale, or\n                had been tampered with. Go back to the account page and try\n                changing your password again.",
        }
    }
}

/// A session form passes only with the session's own anti-CSRF token;
/// otherwise it is a 400 that says the form was stale.
pub fn check_session_csrf(form: SessionForm, posted: &str, session_token: &str) -> (r: Result<
    (),
    WebError,
>)
    ensures
        r is Ok <==> posted@ == session_token@,
        r matches Err(e) ==> e.0.status == 400 && e.0.message@ == stale_form_text(form)
            && e.0.kind == AppErrorKind::Html,
{
    if str_eq(posted, session_token) {
        Ok(())
    } else {
        Err(WebError::new(400, String::from_str(form.stale_message())))
    }
}

/// The forms of logged-out users, guarded by a signed anti-CSRF cookie.
#[derive(Clone, Copy, PartialEq, Eq, Structural, Debug)]
pub enum LoginForm {
    Login,
    Signup,
}

/// What a user is told when a login form's anti-CSRF cookie is missing.
pub open spec fn broken_login_form_text(form: LoginForm) -> Seq<char> {
    match form {
        LoginForm::Login => "The login form you tried to use was broken.\n                Go back to the home page and try logging in again."@,
        LoginForm::Signup => "The signup form you tried to use was broken.\n                Go back to the home page and try signing up again."@,
    }
}

/// What a user is told when a login form's token doesn't match its cookie.
pub open spec fn stale_login_form_text(form: LoginForm) -> Seq<char> {
    match form {
        LoginForm::Login => "The login form you tried to use was stale or had been\n                tampered with. Go back to the home page and try logging in again."@,
        LoginForm::Signup => "The signup form you tried to use was stale or had been\n                tampered with. Go back to the home page and try signing up again."@,
    }
}

/// A login form passes only when the signed anti-CSRF cookie is present and
/// holds the token that the form posted (double-submit).
pub fn check_login_csrf(form: LoginForm, cookie: Option<&str>, posted: &str) -> (r: Result<
    (),
    WebError,
>)
    ensures
        r is Ok <==> (cookie matches Some(c) && c@ == posted@),
        cookie is None ==> (r matches Err(e) && e.0.status == 400 && e.0.message@
            == broken_login_form_text(form)),
        cookie matches Some(c) && c@ != posted@ ==> (r matches Err(e) && e.0.status == 400
            && e.0.message@ == stale_login_form_text(form)),
{
    let cookie = match cookie {
        Some(c) => c,
        None => {
            let msg = match form {
                LoginForm::Login => "The login form you tried to use was broken.\n                Go back to the home page and try logging in again.",
                LoginForm::Signup => "The signup form you tried to use was broken.\n                Go back to the home page and try signing up again.",
            };
            return Err(WebError::new(400, String::from_str(msg)));
        },
    };
    if str_eq(cookie, posted) {
        Ok(())
    } else {
        let msg = match form {
            LoginForm::Login => "The login form you tried to use was stale or had been\n                tampered with. Go back to the home page and try logging in again.",
            LoginForm::Signup => "The signup form you tried to use was stale or had been\n                tampered with. Go back to the home page and try signing up again.",
        };
        Err(WebError::new(400, String::from_str(msg)))
    }
}

/// The new-password fields of a form must match and not be empty; a 400
/// with the reason otherwise.
pub fn check_new_password_form(new1: &str, new2: &str) -> (r: Result<(), WebError>)
    ensures
        r is Ok <==> (new1@ == new2@ && new1@.len() > 0),
        r matches Err(e) ==> e.0.status == 400 && e.0.message@ == new_password_error_text(
            if new1@ != new2@ {
                NewPasswordError::NonMatching
            } else {
                NewPasswordError::Empty
            },
        ),
{
    match check_new_password(new1, new2) {
        Ok(()) => Ok(()),
        Err(e) => Err(WebError::new(400, String::from_str(e.message()))),
    }
}

/// Signing up is refused while logged in (403), and needs matching,
/// non-empty new passwords (400).
pub fn check_signup(logged_in: bool, new1: &str, new2: &str) -> (r: Result<(), WebError>)
    ensures
        r is Ok <==> (!logged_in && new1@ == new2@ && new1@.len() > 0),
        logged_in ==> (r matches Err(e) && e.0.status == 403 && e.0.message@
            == "Can't sign up while you're still logged in. (How'd you even do that, by the way?)"@),
        !logged_in && r is Err ==> (r matches Err(e) && e.0.status == 400 && e.0.message@
            == new_password_error_text(
            if new1@ != new2@ {
                NewPasswordError::NonMatching
            } else {
                NewPasswordError::Empty
            },
        )),
{
    if logged_in {
        return Err(
            WebError::new(
                403,
                String::from_str(
                    "Can't sign up while you're still logged in. (How'd you even do that, by the way?)",
                ),
            ),
        );
    }
    check_new_password_form(new1, new2)
}

/// The 400 for a wrong password on an account form; the change-password
/// form asks for the existing password.
pub fn wrong_password(existing: bool) -> (e: WebError)
    ensures
        e.0.status == 400,
        e.0.message@ == if existing { "Wrong existing password"@ } else { "Wrong password"@ },
{
    if existing {
        WebError::new(400, String::from_str("Wrong existing password"))
    } else {
        WebError::new(400, String::from_str("Wrong password"))
    }
}

/// The message for a wrong delete-account confirmation, quoting what was typed.
pub open spec fn wrong_confirmation_text(typed: Seq<char>) -> Seq<char> {
    "Wrong delete confirmation string; you must type the exact phrase\n                \"delete my account\" (without the quotation marks) into the account delete\n                form, but you typed \""@
        + typed
        + "\" instead. Go back to the account page and try\n                deleting your account again."@
}

/// Deleting an account needs the exact phrase [`DELETE_ACCOUNT_CONFIRM_STRING`]
/// (surrounding white space aside); a 400 that quotes the typed text otherwise.
pub fn check_delete_confirmation(typed: &str) -> (r: Result<(), WebError>)
    ensures
        r is Ok <==> trim_spec(typed@) == DELETE_ACCOUNT_CONFIRM_STRING@,
        r matches Err(e) ==> e.0.status == 400 && e.0.message@ == wrong_confirmation_text(typed@),
{
    if str_eq(str_trim(typed), DELETE_ACCOUNT_CONFIRM_STRING) {
        Ok(())
    } else {
        let mut msg = String::from_str(
            "Wrong delete confirmation string; you must type the exact phrase\n                \"delete my account\" (without the quotation marks) into the account delete\n                form, but you typed \"",
        );
        msg.append(typed);
        msg.append(
            "\" instead. Go back to the account page and try\n                deleting your account again.",
        );
        Err(WebError::new(400, msg))
    }
}

/// Whether two origin serializations denote the same origin. Opaque origins
/// (serialized as `null`) are never the same as anything.
pub open spec fn same_origin(a: Seq<char>, b: Seq<char>) -> bool {
    a == b && a != "null"@
}

/// Where to go after logging in: the requested page, resolved against the
/// site's public URL, if it is legible and on the same site; the public URL
/// itself otherwise.
pub open spec fn login_redirect_spec(public_url: Seq<char>, return_to: Seq<char>) -> Seq<char> {
    match url_join_spec(public_url, return_to) {
        Some((joined, joined_origin)) => match url_parse_origin(public_url) {
            Some(own_origin) => if same_origin(joined_origin, own_origin) {
                joined
            } else {
                public_url
            },
            None => public_url,
        },
        None => public_url,
    }
}

/// Sort out the redirect target of a login. If it's bad (illegible,
/// off-site...), just go to the home page. `public_url` is the serialized
/// public URL of the site.
pub fn login_redirect_target(public_url: &str, return_to: &str) -> (r: String)
    ensures
        r@ == login_redirect_spec(public_url@, return_to@),
{
    match url_join(public_url, return_to) {
        Ok((joined, joined_origin)) => match url_origin(public_url) {
            Ok(own_origin) => {
                if str_eq(joined_origin.as_str(), own_origin.as_str()) && !str_eq(
                    joined_origin.as_str(),
                    "null",
                ) {
                    joined
                } else {
                    String::from_str(public_url)
                }
            },
            Err(_) => String::from_str(public_url),
        },
        Err(_) => String::from_str(public_url),
    }
}

/// The comment of the write token behind a personal bookmarklet made on
/// the date `today`.
pub fn personal_mark_comment(today: &str) -> (r: String)
    ensures
        r@ == "Personal bookmarklet created "@ + today@,
{
    let mut r = String::from_str("Personal bookmarklet created ");
    r.append(today);
    r
}

/// The ASCII serialization of the origin of the site's public URL, which
/// cross-origin checks compare against; `None` where it is not a URL.
pub fn site_origin(public_url: &str) -> (r: Option<String>)
    ensures
        r is None <==> url_parse_origin(public_url@) is None,
        r matches Some(o) ==> url_parse_origin(public_url@) == Some(o@),
{
    match url_origin(public_url) {
        Ok(o) => Some(o),
        Err(_) => None,
    }
}

/// Whether a request comes from another site: it has an Origin header (given
/// as its text) that isn't the site's own origin.
pub fn is_cross_origin(origin: Option<&str>, own_origin: &str) -> (r: bool)
    ensures
        r == (origin matches Some(o) && o@ != own_origin@),
{
    match origin {
        Some(o) => !str_eq(o, own_origin),
        None => false,
    }
}

/// Whether a cross-origin update is allowed, and which error it gets if not:
/// requests from other sites may only update your bookmark on THAT site.
pub open spec fn cors_update_allowed(origin: Seq<char>, current: Seq<char>) -> bool {
    url_parse_origin(current) == Some(origin)
}

/// CORS access check of a cross-origin update: the bookmarked URL must be a
/// URL whose origin is the requesting origin. An illegible URL is a 400, a
/// URL of another site is reported as a 404.
pub fn check_cors_update(origin: &str, current: &str) -> (r: Result<(), UserError>)
    ensures
        r is Ok <==> cors_update_allowed(origin@, current@),
        url_parse_origin(current@) is None ==> (r matches Err(e) && e matches UserError::DogearInvalidUrl {
            url,
        } && url@ == current@),
        url_parse_origin(current@) matches Some(o) && o != origin@ ==> (r matches Err(e)
            && e matches UserError::Dogear404),
{
    match url_origin(current) {
        Err(_) => Err(UserError::DogearInvalidUrl { url: String::from_str(current) }),
        Ok(o) => if str_eq(o.as_str(), origin) {
            Ok(())
        } else {
            Err(UserError::Dogear404)
        },
    }
}

/// The status of deleting one of the user's tokens: 204 when it was
/// deleted, 404 when there was no such token, 500 when the database failed.
pub fn delete_token_status(outcome: Result<Option<()>, ()>) -> (s: u16)
    ensures
        s == match outcome {
            Ok(Some(_)) => 204u16,
            Ok(None) => 404u16,
            Err(_) => 500u16,
        },
{
    match outcome {
        Ok(Some(_)) => 204,
        Ok(None) => 404,
        Err(_) => 500,
    }
}

/// The answer to an API delete: 204 when the dogear was deleted, a JSON 404
/// when the user has no such dogear.
pub fn api_delete_outcome(deleted: bool) -> (r: Result<u16, ApiError>)
    ensures
        deleted ==> r == Ok::<u16, ApiError>(204),
        !deleted ==> (r matches Err(e) && e.0.status == 404 && e.0.message@
            == "dogear not found"@),
{
    if deleted {
        Ok(204)
    } else {
        Err(ApiError::new(404, String::from_str("dogear not found")))
    }
}

/// The page for anything that isn't here.
pub fn four_oh_four() -> (e: WebError)
    ensures
        e.0.status == 404,
        e.0.message@ == "Well I tried, but 404"@,
{
    WebError::new(404, String::from_str("Well I tried, but 404"))
}

} // verus!
