//! Turning a javascript template's rendered output into a bookmarklet: a
//! minified, URL-encoded `javascript:` URL.
//!
//! The minifier is four regex substitutions, applied in order, followed by
//! URI-component encoding of what remains.

use crate::thirdparty::{
    no_comment_lines, no_line_feed, no_space_runs, regex_replace_all, regex_replace_all_spec,
    starts_with_white_space,
};
use crate::util::url_encoding::{encode_uri_component, encode_uri_component_spec};
use vstd::prelude::*;
use vstd::string::StringExecFns;

verus! {

/// A line comment on a line of its own, anywhere in the script, with the
/// newline that ends it.
pub const COMMENTED_LINES: &'static str = r#"(?m)^\s*//.*\n"#;

/// White space at the very start.
pub const LEADING_SPACE: &'static str = r#"^\s+"#;

/// A line ending, with any white space before it.
pub const LINE_ENDINGS: &'static str = r#"\s*\n"#;

/// Two or more white-space characters in a row.
pub const SPACE_RUNS: &'static str = r#"\s{2,}"#;

/// A script with its own-line comments dropped: the first substitution.
pub open spec fn uncommented_spec(js: Seq<char>) -> Seq<char> {
    regex_replace_all_spec(COMMENTED_LINES@, js, ""@).unwrap()
}

/// The minified form of a script: the four substitutions in order.
pub open spec fn minified_spec(js: Seq<char>) -> Seq<char> {
    let a = uncommented_spec(js);
    let b = regex_replace_all_spec(LEADING_SPACE@, a, ""@).unwrap();
    let c = regex_replace_all_spec(LINE_ENDINGS@, b, ""@).unwrap();
    regex_replace_all_spec(SPACE_RUNS@, c, " "@).unwrap()
}

/// The bookmarklet URL of a script.
pub open spec fn bookmarklet_spec(js: Seq<char>) -> Seq<char> {
    "javascript:"@ + encode_uri_component_spec(minified_spec(js))
}

/// Convert a valid javascript ...script, into a minified `javascript:` URL,
/// i.e. a bookmarklet.
/// This minifier is naïve and not especially safe! It expects the caller
/// to uphold the following invariants:
/// - No block comments (`/* ... */`), only line comments (`//`).
/// - Line comments must always be on their own line, no commenting the end of
///   a line.
/// - Semicolons are mandatory.
pub fn make_bookmarklet(js: &str) -> (r: String)
    ensures
        r@ == bookmarklet_spec(js@),
        no_comment_lines(uncommented_spec(js@)),
        no_line_feed(minified_spec(js@)),
        no_space_runs(minified_spec(js@)),
        no_line_feed(js@) && !starts_with_white_space(js@) && no_space_runs(js@) ==> r@
            == "javascript:"@ + encode_uri_component_spec(js@),
{
    let wip = unwrap_known(regex_replace_all(COMMENTED_LINES, js, ""));
    let wip = unwrap_known(regex_replace_all(LEADING_SPACE, wip.as_str(), ""));
    let wip = unwrap_known(regex_replace_all(LINE_ENDINGS, wip.as_str(), ""));
    let wip = unwrap_known(regex_replace_all(SPACE_RUNS, wip.as_str(), " "));
    let encoded = encode_uri_component(wip.as_str());
    let mut out = String::from_str("javascript:");
    out.append(encoded.as_str());
    out
}

/// The text of a substitution whose pattern is known to compile.
fn unwrap_known(r: Result<String, regex::Error>) -> (s: String)
    requires
        r is Ok,
    ensures
        r == Ok::<String, regex::Error>(s),
{
    match r {
        Ok(s) => s,
        Err(_) => {
            assert(false);
            String::new()
        },
    }
}

} // verus!
