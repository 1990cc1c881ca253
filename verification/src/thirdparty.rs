//! The calls this crate makes into other crates, each with the contract that
//! the called crate's source and documentation give it. Nothing in this file
//! is proved: every item here is trusted.

use rand::RngCore;
use sha2::Digest;
use crate::text::is_white_space;
use vstd::prelude::*;
use vstd::string::StringSliceAdditionalSpecFns;

verus! {

// ---------------------------------------------------------------- url

/// `url::ParseError`, the reason a text is not a URL.
#[verifier::external_type_specification]
#[verifier::external_body]
pub struct ExUrlParseError(url::ParseError);

/// The scheme (lower-cased by the parser) of the URL that `url::Url::parse`
/// reads from a text, or `None` where the text is not a URL.
pub uninterp spec fn url_parse_scheme(input: Seq<char>) -> Option<Seq<char>>;

/// The ASCII serialization of the origin of the URL that `url::Url::parse`
/// reads from a text (`"null"` for an opaque origin), or `None` where the
/// text is not a URL.
pub uninterp spec fn url_parse_origin(input: Seq<char>) -> Option<Seq<char>>;

/// The serialization of the URL that `url::Url::join` resolves from the URL
/// that `url::Url::parse` reads from `base` and the reference `input`,
/// together with the ASCII serialization of its origin, or `None` where
/// either step fails.
pub uninterp spec fn url_join_spec(base: Seq<char>, input: Seq<char>) -> Option<
    (Seq<char>, Seq<char>),
>;

/// `url::Url::parse` followed by `Url::scheme`: the scheme of the parsed URL.
/// Claims only that the result is a function of the input text.
#[verifier::external_body]
pub(crate) fn url_scheme(input: &str) -> (r: Result<String, url::ParseError>)
    ensures
        r is Ok <==> url_parse_scheme(input@) is Some,
        r matches Ok(s) ==> url_parse_scheme(input@) == Some(s@),
{
    match url::Url::parse(input) {
        Ok(u) => Ok(u.scheme().to_string()),
        Err(e) => Err(e),
    }
}

/// `url::Url::parse` followed by `Url::origin` and
/// `Origin::ascii_serialization`. Claims only that the result is a function
/// of the input text.
#[verifier::external_body]
pub(crate) fn url_origin(input: &str) -> (r: Result<String, url::ParseError>)
    ensures
        r is Ok <==> url_parse_origin(input@) is Some,
        r matches Ok(s) ==> url_parse_origin(input@) == Some(s@),
{
    match url::Url::parse(input) {
        Ok(u) => Ok(u.origin().ascii_serialization()),
        Err(e) => Err(e),
    }
}

/// `url::Url::parse` of `base`, then `Url::join` with `input`; gives the
/// joined URL's `Url::as_str` and its `Origin::ascii_serialization`. Claims
/// only that the result is a function of the two texts.
#[verifier::external_body]
pub(crate) fn url_join(base: &str, input: &str) -> (r: Result<(String, String), url::ParseError>)
    ensures
        r is Ok <==> url_join_spec(base@, input@) is Some,
        r matches Ok((s, o)) ==> url_join_spec(base@, input@) == Some((s@, o@)),
{
    match url::Url::parse(base) {
        Ok(b) => match b.join(input) {
            Ok(u) => Ok((u.as_str().to_string(), u.origin().ascii_serialization())),
            Err(e) => Err(e),
        },
        Err(e) => Err(e),
    }
}

/// The serialization (`Url::as_str`) of the URL that `url::Url::parse`
/// reads from a text, or `None` where the text is not a URL.
pub uninterp spec fn url_parse_text(input: Seq<char>) -> Option<Seq<char>>;

/// `url::Url::parse` followed by `Url::as_str`: the parsed URL written out
/// again. Claims only that the result is a function of the input text.
#[verifier::external_body]
pub(crate) fn url_parse_serialized(input: &str) -> (r: Result<String, url::ParseError>)
    ensures
        r is Ok <==> url_parse_text(input@) is Some,
        r matches Ok(s) ==> url_parse_text(input@) == Some(s@),
{
    match url::Url::parse(input) {
        Ok(u) => Ok(u.as_str().to_string()),
        Err(e) => Err(e),
    }
}

/// The `Display` text of a `url::ParseError`. Nothing is claimed about it.
#[verifier::external_body]
pub(crate) fn url_error_text(e: &url::ParseError) -> String {
    e.to_string()
}

// ---------------------------------------------------------------- time

/// The text that `time::OffsetDateTime::format` writes, with the format
/// description that `time::format_description::parse_borrowed::<1>` reads from
/// `description`, for the date-time that `time::OffsetDateTime::parse` reads
/// from `date` as ISO 8601; `None` where any of the three steps fails.
pub uninterp spec fn iso8601_reformat_spec(date: Seq<char>, description: Seq<char>) -> Option<
    Seq<char>,
>;

/// `time::OffsetDateTime::parse` with `Iso8601::DEFAULT`, then
/// `OffsetDateTime::format` with a format description parsed from text.
/// Claims only that the result is a function of the two texts.
#[verifier::external_body]
pub(crate) fn iso8601_reformat(date: &str, description: &str) -> (r: Option<String>)
    ensures
        r is None ==> iso8601_reformat_spec(date@, description@) is None,
        r matches Some(s) ==> iso8601_reformat_spec(date@, description@) == Some(s@),
{
    let parsed = time::OffsetDateTime::parse(
        date,
        &time::format_description::well_known::Iso8601::DEFAULT,
    ).ok()?;
    let items = time::format_description::parse_borrowed::<1>(description).ok()?;
    parsed.format(items.as_slice()).ok()
}

// ---------------------------------------------------------------- regex

/// `regex::Error`, the reason a pattern does not compile.
#[verifier::external_type_specification]
#[verifier::external_body]
pub struct ExRegexError(regex::Error);

/// The text that `regex::Regex::replace_all` makes of `text` with the
/// compiled `pattern` and the replacement `rep`, or `None` where
/// `regex::Regex::new` refuses the pattern.
pub uninterp spec fn regex_replace_all_spec(pattern: Seq<char>, text: Seq<char>, rep: Seq<char>)
    -> Option<Seq<char>>;

/// What `regex::Regex::is_match` answers for `text` with the compiled
/// `pattern`, or `None` where `regex::Regex::new` refuses the pattern.
pub uninterp spec fn regex_is_match_spec(pattern: Seq<char>, text: Seq<char>) -> Option<bool>;

/// The patterns this crate compiles, all of which are valid regex syntax.
pub open spec fn is_known_pattern(pattern: Seq<char>) -> bool {
    ||| pattern == r#"(?m)^\s*//.*\n"#@
    ||| pattern == r#"^\s+"#@
    ||| pattern == r#"\s*\n"#@
    ||| pattern == r#"\s{2,}"#@
    ||| is_username_pattern(pattern)
}

/// The username pattern: 1 to 80 ASCII letters, digits, `_` or `-`, and
/// nothing else.
pub open spec fn is_username_pattern(pattern: Seq<char>) -> bool {
    pattern == r#"\A[a-zA-Z0-9_-]{1,80}\z"#@
}

/// Whether a text is what `\A[a-zA-Z0-9_-]{1,80}\z` matches: 1 to 80
/// characters, each an ASCII letter, digit, `_` or `-`.
pub open spec fn username_shape(text: Seq<char>) -> bool {
    &&& 1 <= text.len() <= 80
    &&& forall|i: int|
        0 <= i < text.len() ==> {
            let c = #[trigger] text[i];
            ||| 'a' <= c <= 'z'
            ||| 'A' <= c <= 'Z'
            ||| '0' <= c <= '9'
            ||| c == '_'
            ||| c == '-'
        }
}

/// Whether a text has no line feed.
pub open spec fn no_line_feed(s: Seq<char>) -> bool {
    forall|i: int| 0 <= i < s.len() ==> #[trigger] s[i] != '\n'
}

/// Whether no two white-space characters stand next to each other.
pub open spec fn no_space_runs(s: Seq<char>) -> bool {
    forall|i: int, j: int|
        0 <= i && j == i + 1 && j < s.len() ==> !(is_white_space(#[trigger] s[i])
            && is_white_space(#[trigger] s[j]))
}

/// Whether a text starts with a white-space character.
pub open spec fn starts_with_white_space(s: Seq<char>) -> bool {
    s.len() > 0 && is_white_space(s[0])
}

/// Whether a line comment stands on a line of its own at position `i`: the
/// line starts there, holds only white space before `//`, and ends with a
/// line feed.
pub open spec fn comment_line_at(s: Seq<char>, i: int) -> bool {
    &&& 0 <= i <= s.len()
    &&& (i == 0 || s[i - 1] == '\n')
    &&& exists|j: int, k: int|
        #![trigger s[j], s[k]]
        i <= j && j + 2 <= k < s.len() && (forall|m: int|
            i <= m < j ==> is_white_space(#[trigger] s[m])) && s[j] == '/' && s[j + 1] == '/'
            && (forall|m: int| j + 2 <= m < k ==> #[trigger] s[m] != '\n') && s[k] == '\n'
}

/// Whether no line comment stands on a line of its own.
pub open spec fn no_comment_lines(s: Seq<char>) -> bool {
    forall|i: int| !#[trigger] comment_line_at(s, i)
}

/// `regex::Regex::new` then `Regex::replace_all` with a text replacement
/// (in which `$` would name a capture group). Claims that the result is a
/// function of the pattern, the text and the replacement, that the
/// patterns of [`is_known_pattern`] compile, and what the regex crate's
/// documentation gives for the minifier's patterns, where `\s` is Unicode
/// white space, `^` without the `m` flag matches only at the start of the
/// text, and a text without any match comes back unchanged:
/// - the patterns that end in `\n` find nothing in a text without line
///   feeds;
/// - `^\s+` finds nothing in a text that doesn't start with white space;
/// - `\s{2,}` finds nothing in a text without two white-space characters
///   in a row, and replacing its (greedy, leftmost) matches with one space
///   leaves no such pair and adds no line feed;
/// - replacing every match of `\s*\n` with nothing leaves no line feed;
/// - replacing every match of `(?m)^\s*//.*\n` with nothing leaves no line
///   comment on a line of its own (each match ends at a line start, where
///   the search goes on).
#[verifier::external_body]
pub(crate) fn regex_replace_all(pattern: &str, text: &str, rep: &str) -> (r: Result<
    String,
    regex::Error,
>)
    ensures
        r is Ok <==> regex_replace_all_spec(pattern@, text@, rep@) is Some,
        r matches Ok(s) ==> regex_replace_all_spec(pattern@, text@, rep@) == Some(s@),
        is_known_pattern(pattern@) ==> r is Ok,
        r matches Ok(s) ==> ((pattern@ == r#"(?m)^\s*//.*\n"#@ || pattern@ == r#"\s*\n"#@)
            && no_line_feed(text@) ==> s@ == text@),
        r matches Ok(s) ==> (pattern@ == r#"^\s+"#@ && !starts_with_white_space(text@) ==> s@
            == text@),
        r matches Ok(s) ==> (pattern@ == r#"\s{2,}"#@ && no_space_runs(text@) ==> s@ == text@),
        r matches Ok(s) ==> (pattern@ == r#"\s{2,}"#@ && rep@ == " "@ ==> no_space_runs(s@)
            && (no_line_feed(text@) ==> no_line_feed(s@))),
        r matches Ok(s) ==> (pattern@ == r#"\s*\n"#@ && rep@ == ""@ ==> no_line_feed(s@)),
        r matches Ok(s) ==> (pattern@ == r#"(?m)^\s*//.*\n"#@ && rep@ == ""@ ==> no_comment_lines(
            s@,
        )),
{
    match regex::Regex::new(pattern) {
        Ok(re) => Ok(re.replace_all(text, rep).into_owned()),
        Err(e) => Err(e),
    }
}

/// The answer `regex::Regex::is_match` gives for the username pattern.
pub open spec fn username_match_result(text: Seq<char>) -> Result<bool, regex::Error> {
    Ok(username_shape(text))
}

/// `regex::Regex::new` then `Regex::is_match`. Claims that the answer is a
/// function of the pattern and the text, that the patterns of
/// [`is_known_pattern`] compile, and what the regex syntax documentation
/// says the username pattern matches.
#[verifier::external_body]
pub(crate) fn regex_is_match(pattern: &str, text: &str) -> (r: Result<
    bool,
    regex::Error,
>)
    ensures
        r is Ok <==> regex_is_match_spec(pattern@, text@) is Some,
        r matches Ok(b) ==> regex_is_match_spec(pattern@, text@) == Some(b),
        is_known_pattern(pattern@) ==> r is Ok,
        is_username_pattern(pattern@) ==> r == username_match_result(text@),
{
    match regex::Regex::new(pattern) {
        Ok(re) => Ok(re.is_match(text)),
        Err(e) => Err(e),
    }
}

// ---------------------------------------------------------------- bcrypt

/// `bcrypt::BcryptError`, the reason hashing or checking a password failed.
#[verifier::external_type_specification]
#[verifier::external_body]
pub struct ExBcryptError(bcrypt::BcryptError);

/// What `bcrypt::verify` answers for a password (as bytes) and a stored
/// hash, or `None` where it fails (an unreadable hash, for one).
pub uninterp spec fn bcrypt_verify_spec(password: Seq<u8>, hash: Seq<char>) -> Option<bool>;

/// The start of every hash text that `bcrypt::hash` makes at a cost from 4
/// to 31: `$2b$`, the cost as two decimal digits, and `$`.
pub open spec fn bcrypt_hash_prefix(cost: u32) -> Seq<char> {
    seq!['$', '2', 'b', '$', (48 + cost / 10) as char, (48 + cost % 10) as char, '$']
}

/// `bcrypt::hash`: hashes a password with a fresh random salt at the given
/// cost. The salt makes the hash itself unpredictable; what is claimed is
/// only that `bcrypt::verify` accepts the password against any hash this
/// returns, as the crate's source shows (the same cost, salt and truncated
/// password are hashed again and compared); that a cost outside 4 to 31 is
/// refused; and that the hash text starts with the version `2b` and the
/// cost, as `HashParts::format` writes it.
#[verifier::external_body]
pub(crate) fn bcrypt_hash(password: &str, cost: u32) -> (r: Result<String, bcrypt::BcryptError>)
    ensures
        r matches Ok(h) ==> bcrypt_verify_spec(password.spec_bytes(), h@) == Some(true),
        !(4 <= cost <= 31) ==> r is Err,
        r matches Ok(h) ==> h@.len() >= 7 && h@.subrange(0, 7) == bcrypt_hash_prefix(cost),
{
    bcrypt::hash(password, cost)
}

/// `bcrypt::verify`: whether a password matches a stored hash. Claims that
/// the answer is a function of the two.
#[verifier::external_body]
pub(crate) fn bcrypt_verify(password: &str, hash: &str) -> (r: Result<bool, bcrypt::BcryptError>)
    ensures
        r matches Ok(b) ==> bcrypt_verify_spec(password.spec_bytes(), hash@) == Some(b),
        r is Err ==> bcrypt_verify_spec(password.spec_bytes(), hash@) is None,
{
    bcrypt::verify(password, hash)
}

/// The `Display` text of a `bcrypt::BcryptError`. Nothing is claimed about it.
#[verifier::external_body]
pub(crate) fn bcrypt_error_text(e: &bcrypt::BcryptError) -> String {
    e.to_string()
}

// ---------------------------------------------------------------- html-escape

/// What one character becomes under `html_escape::encode_safe`.
pub open spec fn escape_safe_char(c: char) -> Seq<char> {
    if c == '&' {
        "&amp;"@
    } else if c == '<' {
        "&lt;"@
    } else if c == '>' {
        "&gt;"@
    } else if c == '"' {
        "&quot;"@
    } else if c == '\'' {
        "&#x27;"@
    } else if c == '/' {
        "&#x2F;"@
    } else {
        seq![c]
    }
}

/// `html_escape::encode_safe` of a text: `&`, `<`, `>`, `"`, `'` and `/`
/// replaced by their HTML entities, every other character kept.
pub open spec fn escape_safe_spec(s: Seq<char>) -> Seq<char>
    decreases s.len(),
{
    if s.len() == 0 {
        Seq::empty()
    } else {
        escape_safe_char(s[0]) + escape_safe_spec(s.drop_first())
    }
}

/// `html_escape::encode_safe_to_string`: appends the escaped text to `output`.
#[verifier::external_body]
pub(crate) fn html_escape_safe_into(text: &str, output: &mut String)
    ensures
        final(output)@ == old(output)@ + escape_safe_spec(text@),
{
    html_escape::encode_safe_to_string(text, output);
}

// ---------------------------------------------------------------- std

/// `Arc::clone`: another pointer to the same value.
#[verifier::external_body]
pub(crate) fn arc_clone<T>(a: &std::sync::Arc<T>) -> (r: std::sync::Arc<T>)
    ensures
        *r == **a,
{
    std::sync::Arc::clone(a)
}

/// Whether a path text is absolute on Unix: it starts at the root.
pub open spec fn is_absolute_path(path: Seq<char>) -> bool {
    path.len() > 0 && path[0] == '/'
}

/// The text of `std::path::Path::join` of two UTF-8 paths.
pub uninterp spec fn path_join_text(base: Seq<char>, path: Seq<char>) -> Seq<char>;

/// `std::path::Path::join`, read back as text. Claims that the result is a
/// function of the two paths, and what the documentation of `PathBuf::push`
/// shows: an absolute path replaces the base, and a relative one is
/// appended to a base that doesn't end with a separator after a `/`. What
/// it makes of an empty base, or of a base that ends with `/`, is left
/// unsaid.
#[verifier::external_body]
pub(crate) fn path_join(base: &str, path: &str) -> (r: String)
    ensures
        r@ == path_join_text(base@, path@),
        is_absolute_path(path@) ==> r@ == path@,
        !is_absolute_path(path@) && base@.len() > 0 && base@.last() != '/' ==> r@ == base@
            + "/"@ + path@,
{
    std::path::Path::new(base).join(path).to_string_lossy().into_owned()
}

// ---------------------------------------------------------------- hashing and hex

/// The SHA-256 digest of a byte sequence, as `sha2::Sha256` computes it.
pub uninterp spec fn sha256_spec(data: Seq<u8>) -> Seq<u8>;

/// `sha2::Sha256::digest`: the 32-byte SHA-256 digest of `data`.
#[verifier::external_body]
pub(crate) fn sha256_digest(data: &[u8]) -> (r: Vec<u8>)
    ensures
        r@ == sha256_spec(data@),
        r@.len() == 32,
{
    sha2::Sha256::digest(data).to_vec()
}

/// The character of a hex digit below 16, lower case.
pub open spec fn hex_digit_lower(n: u8) -> char
    recommends
        n < 16,
{
    if n < 10 {
        (0x30 + n) as char
    } else {
        (0x61 + n - 10) as char
    }
}

/// Lower-case Base16: two hex digits per byte, high nibble first.
pub open spec fn hex_lower_spec(bytes: Seq<u8>) -> Seq<char>
    decreases bytes.len(),
{
    if bytes.len() == 0 {
        Seq::empty()
    } else {
        seq![hex_digit_lower(bytes[0] / 16), hex_digit_lower(bytes[0] % 16)] + hex_lower_spec(
            bytes.drop_first(),
        )
    }
}

/// `base16ct::lower::encode_string`: the lower-case hex text of `input`.
/// The function panics when the input is longer than `usize::MAX / 2`.
#[verifier::external_body]
pub(crate) fn hex_lower(input: &[u8]) -> (r: String)
    requires
        input@.len() <= usize::MAX / 2,
    ensures
        r@ == hex_lower_spec(input@),
{
    base16ct::lower::encode_string(input)
}

// ---------------------------------------------------------------- random identifiers

/// `rand::RngCore::fill_bytes` on `rand::thread_rng()`: sixteen bytes from
/// the thread-local CSPRNG. Nothing is claimed about their values.
#[verifier::external_body]
pub(crate) fn random_bytes_16() -> (r: [u8; 16]) {
    let mut bytes = [0u8; 16];
    rand::thread_rng().fill_bytes(&mut bytes);
    bytes
}

/// Random bytes with the version (4) and variant (RFC 4122) bits of a
/// random UUID set, as `uuid::Builder::from_random_bytes` sets them: the
/// high nibble of byte 6 becomes 4, the top two bits of byte 8 become `10`.
pub open spec fn uuid_v4_bytes(bytes: Seq<u8>) -> Seq<u8> {
    bytes.update(6, (bytes[6] % 16 + 0x40) as u8).update(8, (bytes[8] % 64 + 0x80) as u8)
}

/// The hyphenated form of 32 hex digits: groups of 8, 4, 4, 4 and 12.
pub open spec fn hyphenated(hex: Seq<char>) -> Seq<char> {
    hex.subrange(0, 8) + seq!['-'] + hex.subrange(8, 12) + seq!['-'] + hex.subrange(12, 16)
        + seq!['-'] + hex.subrange(16, 20) + seq!['-'] + hex.subrange(20, 32)
}

/// The lower-case hyphenated text of the random UUID built from 16 bytes.
pub open spec fn uuid_v4_text_spec(bytes: Seq<u8>) -> Seq<char> {
    hyphenated(hex_lower_spec(uuid_v4_bytes(bytes)))
}

/// `uuid::Builder::from_random_bytes`, then `Uuid::as_hyphenated` formatted
/// with `to_string`: sets the version and variant bits and writes the UUID as
/// lower-case hex in five hyphen-separated groups.
#[verifier::external_body]
pub(crate) fn uuid_v4_text(bytes: [u8; 16]) -> (r: String)
    ensures
        r@ == uuid_v4_text_spec(bytes@),
{
    uuid::Builder::from_random_bytes(bytes).into_uuid().as_hyphenated().to_string()
}

} // verus!
