//! API authentication tokens.
//!
//! Unlike user passwords, tokens can't be chosen by a user or re-used
//! elsewhere, so they don't need a time-wasting hash function like bcrypt.
//! The cleartext is never stored: only its plain unsalted sha256 checksum.

use crate::text::str_eq;
use crate::thirdparty::uuid_v4_text_spec;
use crate::util::{sha256sum, sha256sum_spec, uuid_string};
use vstd::prelude::*;
use vstd::std_specs::convert::FromSpecImpl;
use vstd::string::StringExecFns;

verus! {

/// The exhaustive list of full permission types that API tokens can have.
/// These values are stored in the database as text.
#[derive(Clone, Copy, PartialEq, Eq, Structural, Debug)]
pub enum TokenScope {
    /// Text: `write_dogears`.
    /// Can POST `/api/v1/create` and `/api/v1/update`.
    WriteDogears,
    /// Text: `manage_dogears`.
    /// Can POST `/api/v1/create` and `/api/v1/update`.
    /// Can GET `/api/v1/list`.
    /// Can DELETE `/api/v1/dogear/:id`.
    ManageDogears,
    /// Can't do anything.
    Invalid,
}

/// The scope that a stored scope text names; any unknown text is `Invalid`.
pub open spec fn scope_from_text(value: Seq<char>) -> TokenScope {
    if value == "write_dogears"@ {
        TokenScope::WriteDogears
    } else if value == "manage_dogears"@ {
        TokenScope::ManageDogears
    } else {
        TokenScope::Invalid
    }
}

/// The text a scope is stored as.
pub open spec fn scope_text(scope: TokenScope) -> Seq<char> {
    match scope {
        TokenScope::WriteDogears => "write_dogears"@,
        TokenScope::ManageDogears => "manage_dogears"@,
        TokenScope::Invalid => "INVALID"@,
    }
}

impl<'a> From<&'a str> for TokenScope {
    fn from(value: &'a str) -> (r: Self) {
        if str_eq(value, "write_dogears") {
            TokenScope::WriteDogears
        } else if str_eq(value, "manage_dogears") {
            TokenScope::ManageDogears
        } else {
            TokenScope::Invalid
        }
    }
}

impl<'a> FromSpecImpl<&'a str> for TokenScope {
    open spec fn obeys_from_spec() -> bool {
        true
    }

    open spec fn from_spec(value: &'a str) -> Self {
        scope_from_text(value@)
    }
}

impl From<TokenScope> for &'static str {
    fn from(value: TokenScope) -> (r: Self) {
        match value {
            TokenScope::WriteDogears => "write_dogears",
            TokenScope::ManageDogears => "manage_dogears",
            TokenScope::Invalid => "INVALID",
        }
    }
}

impl FromSpecImpl<TokenScope> for &'static str {
    open spec fn obeys_from_spec() -> bool {
        true
    }

    open spec fn from_spec(value: TokenScope) -> Self {
        match value {
            TokenScope::WriteDogears => "write_dogears",
            TokenScope::ManageDogears => "manage_dogears",
            TokenScope::Invalid => "INVALID",
        }
    }
}

/// Record struct for API authentication tokens associated with a user.
/// Times are nanoseconds since the Unix epoch (UTC).
#[derive(Clone, Debug)]
pub struct Token {
    pub id: i64,
    pub user_id: i64,
    /// The stored scope text; [`Token::scope`] reads it as a [`TokenScope`].
    pub scope: String,
    pub created: i128,
    pub last_used: Option<i128>,
    pub comment: Option<String>,
    // notably excluded: token_hash and also the temporary cleartext.
}

/// Whether two optional texts are equal.
pub open spec fn same_opt_text(a: Option<String>, b: Option<String>) -> bool {
    match (a, b) {
        (Some(x), Some(y)) => x@ == y@,
        (None, None) => true,
        _ => false,
    }
}

impl Token {
    /// A token record as it is stored, with its scope text.
    pub fn new(
        id: i64,
        user_id: i64,
        scope: String,
        created: i128,
        last_used: Option<i128>,
        comment: Option<String>,
    ) -> (t: Self)
        ensures
            t.id == id,
            t.user_id == user_id,
            t.scope_view() == scope@,
            t.created == created,
            t.last_used == last_used,
            t.comment == comment,
    {
        Token { id, user_id, scope, created, last_used, comment }
    }

    /// The stored scope text.
    pub open spec fn scope_view(&self) -> Seq<char> {
        self.scope@
    }

    /// The stored scope text.
    pub fn scope_str(&self) -> (s: &str)
        ensures
            s@ == self.scope_view(),
    {
        self.scope.as_str()
    }

    /// The permissions this token grants.
    pub fn scope(&self) -> (s: TokenScope)
        ensures
            s == scope_from_text(self.scope_view()),
    {
        TokenScope::from(self.scope.as_str())
    }

    /// Whether two records describe the same token; the last-used time is
    /// ignored, because it changes whenever the token is used.
    pub open spec fn same_token(&self, other: &Token) -> bool {
        &&& self.id == other.id
        &&& self.user_id == other.user_id
        &&& self.scope_view() == other.scope_view()
        &&& self.created == other.created
        &&& same_opt_text(self.comment, other.comment)
    }
}

fn opt_text_eq(a: &Option<String>, b: &Option<String>) -> (r: bool)
    ensures
        r == same_opt_text(*a, *b),
{
    match (a, b) {
        (Some(x), Some(y)) => str_eq(x.as_str(), y.as_str()),
        (None, None) => true,
        _ => false,
    }
}

impl PartialEq for Token {
    fn eq(&self, other: &Self) -> (r: bool) {
        // Skip last_used bc it can change on auth-fetch
        self.id == other.id && self.user_id == other.user_id && self.scope == other.scope
            && self.created == other.created && opt_text_eq(&self.comment, &other.comment)
    }
}

impl vstd::std_specs::cmp::PartialEqSpecImpl for Token {
    open spec fn obeys_eq_spec() -> bool {
        true
    }

    open spec fn eq_spec(&self, other: &Token) -> bool {
        self.same_token(other)
    }
}

/// The text every token cleartext starts with.
pub open spec fn token_prefix() -> Seq<char> {
    "eardoggerv1."@
}

/// Make the cleartext of a new token: a fixed prefix and a random UUID.
/// This is the only time the cleartext is ever available; only its
/// [`sha256sum`] is stored.
pub fn new_token_cleartext() -> (r: String)
    ensures
        exists|bytes: Seq<u8>|
            bytes.len() == 16 && r@ == token_prefix() + uuid_v4_text_spec(bytes),
{
    let mut r = String::from_str("eardoggerv1.");
    let id = uuid_string();
    r.append(id.as_str());
    r
}

/// The text a token is looked up by: the checksum of its cleartext.
pub fn token_hash(cleartext: &str) -> (r: String)
    ensures
        r@ == sha256sum_spec(cleartext@),
{
    sha256sum(cleartext)
}

} // verus!
