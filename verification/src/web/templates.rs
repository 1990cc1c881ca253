//! The data that page templates are rendered with, and the template filters
//! that carry app rules.

use crate::db::{Dogear, Token, TokenScope, User};
use crate::db::tokens::scope_from_text;
use crate::thirdparty::{iso8601_reformat, iso8601_reformat_spec};
use crate::util::{Pagination, SHORT_DATE_PADDED};
use vstd::string::StringExecFns;
use vstd::prelude::*;

verus! {

/// The explanation shown for each token scope.
pub open spec fn scope_explanation(scope: TokenScope) -> Seq<char> {
    match scope {
        TokenScope::WriteDogears => "Can mark your spot."@,
        TokenScope::ManageDogears => "Can view, update, and delete dogears."@,
        TokenScope::Invalid => "Cannot be used."@,
    }
}

/// A template filter for turning stored token scopes into explanatory text.
pub fn explain_scope(scope_str: &str) -> (r: &'static str)
    ensures
        r@ == scope_explanation(scope_from_text(scope_str@)),
{
    match TokenScope::from(scope_str) {
        TokenScope::WriteDogears => "Can mark your spot.",
        TokenScope::ManageDogears => "Can view, update, and delete dogears.",
        TokenScope::Invalid => "Cannot be used.",
    }
}

/// What the short-date filter shows for a timestamp text: the date in the
/// short format, or the text itself where it can't be read as an ISO 8601
/// timestamp or written as a date.
pub open spec fn short_date_spec(date: Seq<char>) -> Seq<char> {
    match iso8601_reformat_spec(date, SHORT_DATE_PADDED@) {
        Some(short) => short,
        None => date,
    }
}

/// A template filter for turning an ISO8601 timestamp into a short date like
/// 2024-03-22. If the timestamp can't parse or lacks date elements, we
/// default to just displaying whatever we've got.
pub fn short_date(date_str: &str) -> (r: String)
    ensures
        r@ == short_date_spec(date_str@),
{
    match iso8601_reformat(date_str, SHORT_DATE_PADDED) {
        Some(short) => short,
        None => String::from_str(date_str),
    }
}

/// Template data that pretty much every page is gonna need.
#[derive(Clone, Copy, Debug)]
pub struct Common<'a> {
    pub title: &'a str,
    pub user: Option<&'a User>,
    pub csrf_token: &'a str,
}

impl<'a> Common<'a> {
    /// Common args with no user and an invalid csrf token, for pages that
    /// can be viewed while logged out without turning into a login form.
    pub fn anonymous(title: &'a str) -> (c: Self)
        ensures
            c.title == title,
            c.user is None,
            c.csrf_token@ == "invalid"@,
    {
        Self { title, user: None, csrf_token: "invalid" }
    }
}

/// A page of the user's tokens.
#[derive(Clone, Copy, Debug)]
pub struct TokensList<'a> {
    pub tokens: &'a [Token],
    pub pagination: Pagination,
}

/// A page of the user's dogears.
#[derive(Clone, Copy, Debug)]
pub struct DogearsList<'a> {
    pub dogears: &'a [Dogear],
    pub pagination: Pagination,
}

/// The "saved your place" page.
#[derive(Clone, Copy, Debug)]
pub struct MarkedPage<'a> {
    pub updated_dogears: &'a [Dogear],
    pub bookmarked_url: &'a str,
    pub slowmode: bool,
}

/// The "dogear this?" page.
#[derive(Clone, Copy, Debug)]
pub struct CreatePage<'a> {
    pub bookmarked_url: &'a str,
}

/// The login form.
#[derive(Clone, Copy, Debug)]
pub struct LoginPage<'a> {
    pub return_to: &'a str,
    pub previously_failed: bool,
}

/// An error shown inside a page.
#[derive(Clone, Copy, Debug)]
pub struct ErrorPage<'a> {
    pub error: &'a str,
}

/// The install page.
#[derive(Clone, Copy, Debug)]
pub struct InstallPage<'a> {
    pub where_was_i_bookmarklet_url: &'a str,
}

/// The personal bookmarklet fragment.
#[derive(Clone, Copy, Debug)]
pub struct PersonalMark<'a> {
    pub bookmarklet_url: &'a str,
}

} // verus!
