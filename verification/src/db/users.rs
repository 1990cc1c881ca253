//! User accounts: username and password rules, and password checks.

use crate::text::{str_trim, trim_spec};
use crate::thirdparty::{
    bcrypt_error_text, bcrypt_hash, bcrypt_hash_prefix, bcrypt_verify, bcrypt_verify_spec, is_known_pattern,
    is_username_pattern, regex_is_match, username_shape,
};
use crate::util::error::{ServerError, UserError};
use crate::util::{clean_field_spec, clean_optional_form_field, opt_view};
use vstd::prelude::*;
use vstd::string::{StringExecFns, StringSliceAdditionalSpecFns};

verus! {

/// The bcrypt work factor for stored password hashes.
pub const PASSWORD_HASH_COST: u32 = 12;

/// Allowed usernames: 1 to 80 ASCII letters, digits, underscores and hyphens.
/// Too restrictive, but now's not the time to loosen it.
pub const USERNAME_PATTERN: &'static str = r#"\A[a-zA-Z0-9_-]{1,80}\z"#;

/// Record struct for user accounts. `created` is in nanoseconds since the
/// Unix epoch (UTC).
#[derive(Clone, Debug)]
pub struct User {
    pub id: i64,
    pub username: String,
    pub email: Option<String>,
    pub created: i128,
}

/// A user account together with its stored password hash.
#[derive(Clone, Debug)]
pub struct UserWithPasswordHash {
    pub user: User,
    pub password_hash: String,
}

/// Trim whitespace and validate allowed username characters.
pub fn clean_username(username: &str) -> (r: Result<&str, UserError>)
    ensures
        r is Ok <==> username_shape(trim_spec(username@)),
        r matches Ok(name) ==> name@ == trim_spec(username@),
        r matches Err(e) ==> (e matches UserError::BadUsername { name } && name@ == trim_spec(
            username@,
        )),
{
    proof {
        assert(is_username_pattern(USERNAME_PATTERN@));
    }
    let username = str_trim(username);
    match regex_is_match(USERNAME_PATTERN, username) {
        Ok(true) => Ok(username),
        Ok(false) => Err(UserError::BadUsername { name: String::from_str(username) }),
        Err(_) => {
            assert(false);
            Err(UserError::BadUsername { name: String::from_str(username) })
        },
    }
}

/// Passwords can't be blank.
pub fn valid_password(password: &str) -> (r: Result<&str, UserError>)
    ensures
        password@.len() == 0 ==> r matches Err(UserError::BlankPassword),
        password@.len() > 0 ==> (r matches Ok(p) && p@ == password@),
{
    if password.is_empty() {
        Err(UserError::BlankPassword)
    } else {
        Ok(password)
    }
}

/// Hash a password for storage. IMPORTANT: assumes the password was
/// already validated. Any failure (only the random source can fail at this
/// cost) is reported as impossible.
pub fn hash_password(password: &str) -> (r: Result<String, UserError>)
    ensures
        r matches Ok(h) ==> bcrypt_verify_spec(password.spec_bytes(), h@) == Some(true),
        r matches Ok(h) ==> h@.len() >= 7 && h@.subrange(0, 7) == bcrypt_hash_prefix(
            PASSWORD_HASH_COST,
        ),
        r matches Err(e) ==> e matches UserError::Impossible(_),
{
    match bcrypt_hash(password, PASSWORD_HASH_COST) {
        Ok(h) => Ok(h),
        Err(_) => Err(
            UserError::Impossible("bcrypt hash of statically-known cost had illegal cost"),
        ),
    }
}

/// The validated contents of a new account, ready to be inserted.
#[derive(Debug)]
pub struct NewUser<'a> {
    pub username: &'a str,
    pub email: Option<&'a str>,
    pub password_hash: String,
}

/// Validate and prepare the fields of a new user account: the username is
/// trimmed and checked, a blank email becomes none, the password must not
/// be blank and is hashed.
pub fn prepare_new_user<'a>(username: &'a str, password: &'a str, email: Option<&'a str>) -> (r:
    Result<NewUser<'a>, UserError>)
    ensures
        !username_shape(trim_spec(username@)) ==> (r matches Err(e) && e matches UserError::BadUsername {
            name,
        } && name@ == trim_spec(username@)),
        username_shape(trim_spec(username@)) && password@.len() == 0 ==> (r matches Err(e)
            && e matches UserError::BlankPassword),
        username_shape(trim_spec(username@)) && password@.len() > 0 ==> (r is Ok || (r matches Err(
            e,
        ) && e matches UserError::Impossible(_))),
        r matches Ok(n) ==> {
            &&& n.username@ == trim_spec(username@)
            &&& opt_view(n.email) == clean_field_spec(opt_view(email))
            &&& bcrypt_verify_spec(password.spec_bytes(), n.password_hash@) == Some(true)
            &&& n.password_hash@.len() >= 7
            &&& n.password_hash@.subrange(0, 7) == bcrypt_hash_prefix(PASSWORD_HASH_COST)
        },
{
    let username = clean_username(username)?;
    let email = clean_optional_form_field(email);
    let password = valid_password(password)?;
    let password_hash = hash_password(password)?;
    Ok(NewUser { username, email, password_hash })
}

/// The error for inserting an account whose (cleaned) name is taken.
pub fn user_exists(username: &str) -> (e: UserError)
    ensures
        e matches UserError::UserExists { name } && name@ == username@,
{
    UserError::UserExists { name: String::from_str(username) }
}

/// The name an account is looked up by: the given name, trimmed.
pub fn username_lookup_key(username: &str) -> (r: &str)
    ensures
        r@ == trim_spec(username@),
{
    str_trim(username)
}

/// The outcome of checking a password against the account found under a
/// name: the account when the password matches, nothing when it doesn't or
/// when there is no such account, and an error when the stored hash can't be
/// checked.
pub open spec fn authenticate_spec(found: Option<UserWithPasswordHash>, password: Seq<u8>) -> Option<
    Option<User>,
> {
    match found {
        None => Some(None),
        Some(u) => match bcrypt_verify_spec(password, u.password_hash@) {
            Some(true) => Some(Some(u.user)),
            Some(false) => Some(None),
            None => None,
        },
    }
}

/// Authenticate a user by password, given the account (if any) that was
/// found under the requested name. Only returns Some if the user exists and
/// the password matches.
pub fn authenticate_user(found: Option<UserWithPasswordHash>, password: &str) -> (r: Result<
    Option<User>,
    ServerError,
>)
    ensures
        r is Ok <==> authenticate_spec(found, password.spec_bytes()) is Some,
        r matches Ok(u) ==> authenticate_spec(found, password.spec_bytes()) == Some(u),
{
    match found {
        None => Ok(None),
        Some(u) => match bcrypt_verify(password, u.password_hash.as_str()) {
            Ok(true) => Ok(Some(u.user)),
            Ok(false) => Ok(None),
            Err(e) => Err(ServerError(bcrypt_error_text(&e))),
        },
    }
}

/// An update of the logged-in user's own row must touch exactly that row.
pub fn one_user_updated(rows_affected: u64) -> (r: Result<(), UserError>)
    ensures
        r is Ok <==> rows_affected == 1,
        r matches Err(e) ==> e matches UserError::Impossible(_),
{
    if rows_affected != 1 {
        Err(UserError::Impossible("user is both logged-in and nonexistent"))
    } else {
        Ok(())
    }
}

} // verus!
