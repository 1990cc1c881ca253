//! Dogears: bookmarks identified by a URL prefix, pointing at the most
//! recently marked page under that prefix.

use crate::text::{starts_with_spec, str_starts_with};
use crate::util::error::UserError;
use crate::util::{
    checked_matchable_from_url, clean_field_spec, clean_optional_form_field, matchable_spec,
    normalize_prefix_matcher, normalize_prefix_spec, opt_view, scheme_cut_fits,
    scheme_cut_misplaced,
};
use vstd::prelude::*;
use vstd::string::StringExecFns;

verus! {

/// A record struct for user web serial bookmarks. `updated` is in
/// nanoseconds since the Unix epoch (UTC).
#[derive(Clone, Debug)]
pub struct Dogear {
    pub id: i64,
    pub user_id: i64,
    pub prefix: String,
    pub current: String,
    pub display_name: Option<String>,
    pub updated: i128,
}

/// The validated contents of a new dogear, ready to be inserted.
#[derive(Debug)]
pub struct NewDogear<'a> {
    /// The normalized prefix matcher.
    pub prefix: &'a str,
    /// The bookmarked URL, exactly as given.
    pub current: &'a str,
    /// The display name, trimmed; a blank one becomes none.
    pub display_name: Option<&'a str>,
}

/// Whether a URL lies under a prefix: its matchable form starts with the
/// prefix's normalized form.
pub open spec fn url_under_prefix(prefix: Seq<char>, url: Seq<char>) -> bool {
    match matchable_spec(url) {
        Some(m) => starts_with_spec(m, normalize_prefix_spec(prefix)),
        None => false,
    }
}

/// Whether `e` is the error a refused new dogear deserves: the URL is not an
/// http(s) URL, or it doesn't lie under the prefix.
pub open spec fn describes_dogear_error(e: UserError, prefix: Seq<char>, current: Seq<char>) -> bool {
    if matchable_spec(current) is None {
        e matches UserError::DogearInvalidUrl { url } && url@ == current
    } else {
        e matches UserError::DogearNonMatching { url, prefix: p } && url@ == current && p@
            == prefix
    }
}

/// Validate and prepare a new dogear: the prefix is normalized, the current
/// URL must be an http(s) URL under that prefix, and the display name is
/// cleaned. `None` where cutting the scheme off the prefix or the URL would
/// split a character or run past the end of the text.
pub fn prepare_dogear<'a>(prefix: &'a str, current: &'a str, display_name: Option<&'a str>) -> (r:
    Option<Result<NewDogear<'a>, UserError>>)
    ensures
        r is None <==> (scheme_cut_misplaced(prefix@) || scheme_cut_misplaced(current@)),
        r matches Some(res) ==> (res is Ok <==> url_under_prefix(prefix@, current@)),
        r matches Some(Ok(n)) ==> {
            &&& n.prefix@ == normalize_prefix_spec(prefix@)
            &&& n.current@ == current@
            &&& opt_view(n.display_name) == clean_field_spec(opt_view(display_name))
        },
        r matches Some(Err(e)) ==> describes_dogear_error(e, prefix@, current@),
{
    if !scheme_cut_fits(prefix) {
        return None;
    }
    let normalized_prefix = normalize_prefix_matcher(prefix);
    // Confirm that the current URL is valid and matches the prefix
    let matchable_current = match checked_matchable_from_url(current) {
        None => {
            return None;
        },
        Some(Ok(m)) => m,
        Some(Err(_)) => {
            return Some(Err(UserError::DogearInvalidUrl { url: String::from_str(current) }));
        },
    };
    if !str_starts_with(matchable_current, normalized_prefix) {
        return Some(
            Err(
                UserError::DogearNonMatching {
                    url: String::from_str(current),
                    prefix: String::from_str(prefix),
                },
            ),
        );
    }
    let normalized_display_name = clean_optional_form_field(display_name);
    Some(
        Ok(
            NewDogear {
                prefix: normalized_prefix,
                current,
                display_name: normalized_display_name,
            },
        ),
    )
}

/// The error for inserting a dogear whose normalized prefix the user already has.
pub fn dogear_exists(normalized_prefix: &str) -> (e: UserError)
    ensures
        e matches UserError::DogearExists { prefix } && prefix@ == normalized_prefix@,
{
    UserError::DogearExists { prefix: String::from_str(normalized_prefix) }
}

} // verus!
