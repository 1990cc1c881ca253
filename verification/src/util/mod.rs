//! Shared helpers: pagination, form-field cleaning, URL matching and hashing.

pub mod bookmarklets;
pub mod error;
pub mod url_encoding;

use crate::text::{is_white_space, starts_with_spec, str_eq, str_starts_with, str_trim, trim_spec};
use crate::thirdparty::{
    hex_lower, hex_lower_spec, random_bytes_16, sha256_digest, sha256_spec, url_parse_scheme,
    url_scheme, uuid_v4_text, uuid_v4_text_spec,
};
use vstd::prelude::*;
use vstd::string::{StrSliceExecFns, StringExecFns};
use vstd::utf8::{
    decode_utf8, encode_utf8, encode_utf8_decode_utf8, encode_utf8_valid_utf8, is_char_boundary,
};

verus! {

/// The session cookie name. It stays the same across releases, so browsers
/// don't pile up stale session cookies.
pub const COOKIE_SESSION: &'static str = "eardogger.sessid";

/// The login form signed anti-CSRF cookie name. Most "plain" forms use
/// an anti-CSRF token stored in the session, but the session doesn't exist
/// until after you log in.
pub const COOKIE_LOGIN_CSRF: &'static str = "eardogger.loginguard";

/// A time crate format description of a short date, like this: 2024-3-22
pub const SHORT_DATE: &'static str = "[year]-[month repr:numerical padding:none]-[day padding:none]";

/// A time crate format description of a short date with two-digit month
/// and day, like this: 2024-03-22
pub const SHORT_DATE_PADDED: &'static str = "[year]-[month]-[day]";

/// The default number of items on one page of a list.
pub const PAGE_DEFAULT_SIZE: u32 = 50;

/// The largest page size a list request may ask for.
pub const PAGE_MAX_SIZE: u32 = 500;

/// Metadata about which fraction of a collection was returned by a
/// list method, for building pagination affordances.
#[derive(Clone, Copy, PartialEq, Eq, Structural, Debug)]
pub struct ListMeta {
    pub count: u32,
    pub page: u32,
    pub size: u32,
}

/// Pagination details built from a [`ListMeta`], useful when displaying
/// page-turning controls in a template.
#[derive(Clone, Copy, PartialEq, Eq, Structural, Debug)]
pub struct Pagination {
    pub current_page: u32,
    /// Absent when the list used the default page size, for cleaner URLs.
    pub page_size: Option<u32>,
    pub prev_page: Option<u32>,
    pub next_page: Option<u32>,
    pub total_pages: u32,
    pub total_count: u32,
}

/// The number of pages of `size` items needed to hold `count` items.
pub open spec fn total_pages_of(count: int, size: int) -> int
    recommends
        size > 0,
{
    if count % size == 0 {
        count / size
    } else {
        count / size + 1
    }
}

/// The pagination that a list's metadata describes.
pub open spec fn pagination_of(meta: ListMeta) -> Pagination
    recommends
        meta.size > 0,
{
    let total_pages = total_pages_of(meta.count as int, meta.size as int) as u32;
    // page 0 isn't a thing:
    let current_page = if meta.page < 1 { 1u32 } else { meta.page };
    Pagination {
        current_page,
        page_size: if meta.size == PAGE_DEFAULT_SIZE { None } else { Some(meta.size) },
        prev_page: if current_page == 1 {
            None
        } else if current_page - 1 <= total_pages {
            Some((current_page - 1) as u32)
        } else {
            Some(total_pages)
        },
        next_page: if current_page >= total_pages { None } else { Some((current_page + 1) as u32) },
        total_pages,
        total_count: meta.count,
    }
}

/// A quotient with a nonzero remainder leaves room for one more.
proof fn lemma_quotient_room(count: u32, size: u32)
    requires
        size > 0,
        count % size != 0,
    ensures
        count / size < u32::MAX,
{
    assert(size >= 2) by {
        if size == 1 {
            assert(count % 1 == 0) by (nonlinear_arith);
        }
    }
    assert(count / size <= count / 2) by (nonlinear_arith)
        requires
            size >= 2,
    ;
}

impl ListMeta {
    /// Build the page-turning details for this list. A page number of 0 is
    /// treated as page 1, and a page past the end gets a "previous" link that
    /// points back at the last page.
    pub fn to_pagination(self) -> (p: Pagination)
        requires
            self.size > 0,
        ensures
            p == pagination_of(self),
    {
        let total_pages = if self.count % self.size == 0 {
            self.count / self.size
        } else {
            proof {
                lemma_quotient_room(self.count, self.size);
            }
            self.count / self.size + 1
        };
        let current_page = if self.page < 1 { 1 } else { self.page };
        let page_size = if self.size == PAGE_DEFAULT_SIZE {
            None
        } else {
            Some(self.size)
        };
        let prev_page = if current_page == 1 {
            None
        } else {
            // Guardrail if you hacked the query param and paged past the end.
            let back = current_page - 1;
            Some(if back <= total_pages { back } else { total_pages })
        };
        let next_page = if current_page >= total_pages {
            None
        } else {
            Some(current_page + 1)
        };
        Pagination {
            current_page,
            page_size,
            prev_page,
            next_page,
            total_pages,
            total_count: self.count,
        }
    }
}

/// Use the thread-local CSPRNG to create a random (version 4) UUID,
/// formatted as a lower-case hyphenated String.
pub fn uuid_string() -> (r: String)
    ensures
        exists|bytes: Seq<u8>| bytes.len() == 16 && r@ == uuid_v4_text_spec(bytes),
{
    let bytes = random_bytes_16();
    let r = uuid_v4_text(bytes);
    assert(bytes@.len() == 16 && r@ == uuid_v4_text_spec(bytes@));
    r
}

/// The sha256 checksum of a text's UTF-8 bytes, as lower-case hex.
pub open spec fn sha256sum_spec(cleartext: Seq<char>) -> Seq<char> {
    hex_lower_spec(sha256_spec(encode_utf8(cleartext)))
}

/// Calculate the sha256 checksum of a &str and return it as a lowercase hex
/// String.
pub fn sha256sum(cleartext: &str) -> (r: String)
    ensures
        r@ == sha256sum_spec(cleartext@),
        r@.len() == 64,
        forall|i: int| 0 <= i < r@.len() ==> crate::laws::is_lower_hex(#[trigger] r@[i]),
{
    let hash = sha256_digest(cleartext.as_bytes());
    proof {
        crate::laws::law_hex_lower_digits(hash@);
    }
    hex_lower(hash.as_slice())
}

/// Why a page request can't be turned into a query offset.
#[derive(Clone, Copy, PartialEq, Eq, Structural, Debug)]
pub enum OffsetError {
    /// Pages are numbered from 1.
    InvalidPage,
    /// More than [`PAGE_MAX_SIZE`] items per page.
    PageTooLarge,
}

impl OffsetError {
    /// The human-readable explanation of this error.
    pub fn message(&self) -> (m: &'static str)
        ensures
            m@ == offset_error_text(*self),
    {
        proof {
            reveal_strlit("Invalid page number.");
            reveal_strlit("Requested page size is too large.");
        }
        match self {
            OffsetError::InvalidPage => "Invalid page number.",
            OffsetError::PageTooLarge => "Requested page size is too large.",
        }
    }
}

impl OffsetError {
    /// The error a handler reports for a page request that can't be served:
    /// an oversize page is the user's fault (a 400); a page number of 0 is
    /// reported as a server error (a 500) with the offset error's text.
    pub fn into_handler_error(self) -> (e: crate::util::error::MixedError<
        crate::util::error::ServerError,
    >)
        ensures
            self == OffsetError::InvalidPage ==> (e matches crate::util::error::MixedError::Server(
                se,
            ) && se.0@ == offset_error_text(self)),
            self == OffsetError::PageTooLarge ==> e == crate::util::error::MixedError::<
                crate::util::error::ServerError,
            >::User(crate::util::error::UserError::PageOversize),
    {
        match self {
            OffsetError::InvalidPage => crate::util::error::MixedError::Server(
                crate::util::error::ServerError(String::from_str(self.message())),
            ),
            OffsetError::PageTooLarge => crate::util::error::MixedError::User(
                crate::util::error::UserError::PageOversize,
            ),
        }
    }
}

/// The text of each [`OffsetError`].
pub open spec fn offset_error_text(e: OffsetError) -> Seq<char> {
    match e {
        OffsetError::InvalidPage => "Invalid page number."@,
        OffsetError::PageTooLarge => "Requested page size is too large."@,
    }
}

/// The OFFSET of the first row of a (1-indexed) page, or why there is none.
pub open spec fn sqlite_offset_spec(page: u32, size: u32) -> Result<i64, OffsetError> {
    if page == 0 {
        Err(OffsetError::InvalidPage)
    } else if size > PAGE_MAX_SIZE {
        Err(OffsetError::PageTooLarge)
    } else {
        Ok(((page - 1) * size) as i64)
    }
}

/// Given a (1-indexed) page and size, calculate an OFFSET value to pass
/// to a sqlite query.
pub fn sqlite_offset(page: u32, size: u32) -> (r: Result<i64, OffsetError>)
    ensures
        r == sqlite_offset_spec(page, size),
        r matches Ok(off) ==> off == (page - 1) * size,
{
    if page == 0 {
        return Err(OffsetError::InvalidPage);
    }
    let zero_idx_page = page - 1;
    if size > PAGE_MAX_SIZE {
        return Err(OffsetError::PageTooLarge);
    }
    let size_i64 = size as i64;
    let zero_idx_page_i64 = zero_idx_page as i64;
    // Can't overflow: the page is below 2^32 and the size at most PAGE_MAX_SIZE.
    assert(zero_idx_page_i64 * size_i64 <= 4294967295 * 500) by (nonlinear_arith)
        requires
            0 <= zero_idx_page_i64 <= 4294967295,
            0 <= size_i64 <= 500,
    ;
    assert(zero_idx_page_i64 * size_i64 >= 0) by (nonlinear_arith)
        requires
            0 <= zero_idx_page_i64,
            0 <= size_i64,
    ;
    Ok(zero_idx_page_i64 * size_i64)
}

/// Why a pair of new-password form fields was refused.
#[derive(Clone, Copy, PartialEq, Eq, Structural, Debug)]
pub enum NewPasswordError {
    NonMatching,
    Empty,
}

impl NewPasswordError {
    /// The human-readable explanation of this error.
    pub fn message(&self) -> (m: &'static str)
        ensures
            m@ == new_password_error_text(*self),
    {
        match self {
            NewPasswordError::NonMatching => "New passwords didn't match.",
            NewPasswordError::Empty => "New password can't be empty.",
        }
    }
}

/// The text of each [`NewPasswordError`].
pub open spec fn new_password_error_text(e: NewPasswordError) -> Seq<char> {
    match e {
        NewPasswordError::NonMatching => "New passwords didn't match."@,
        NewPasswordError::Empty => "New password can't be empty."@,
    }
}

/// Check the "new password" and "repeat new password" fields of a form:
/// they must match, and must not be empty.
pub fn check_new_password(new1: &str, new2: &str) -> (r: Result<(), NewPasswordError>)
    ensures
        new1@ != new2@ ==> r == Err::<(), _>(NewPasswordError::NonMatching),
        new1@ == new2@ && new1@.len() == 0 ==> r == Err::<(), _>(NewPasswordError::Empty),
        r is Ok <==> (new1@ == new2@ && new1@.len() > 0),
{
    if !str_eq(new1, new2) {
        Err(NewPasswordError::NonMatching)
    } else if new1.is_empty() {
        Err(NewPasswordError::Empty)
    } else {
        Ok(())
    }
}

/// The view of an optional text.
pub open spec fn opt_view(o: Option<&str>) -> Option<Seq<char>> {
    match o {
        Some(s) => Some(s@),
        None => None,
    }
}

/// A form field with its surrounding white space removed, where blank
/// counts the same as absent.
pub open spec fn clean_field_spec(maybe: Option<Seq<char>>) -> Option<Seq<char>> {
    match maybe {
        Some(e) => if trim_spec(e).len() == 0 { None } else { Some(trim_spec(e)) },
        None => None,
    }
}

/// Form fields show up as `Some("")` if they're present but empty, but a
/// few functions want to omit empty fields: this trims a field and turns a
/// blank one into `None`.
pub fn clean_optional_form_field(maybe: Option<&str>) -> (r: Option<&str>)
    ensures
        opt_view(r) == clean_field_spec(opt_view(maybe)),
{
    match maybe {
        Some(e) => {
            let e = str_trim(e);
            if e.is_empty() {
                None
            } else {
                Some(e)
            }
        },
        None => None,
    }
}

/// The `m.` subdomain prefix.
pub open spec fn m_dot() -> Seq<char> {
    seq!['m', '.']
}

/// The `www.` subdomain prefix.
pub open spec fn www_dot() -> Seq<char> {
    seq!['w', 'w', 'w', '.']
}

/// A partial URL with any leading `m.` and `www.` subdomains removed,
/// repeatedly and in any order.
pub open spec fn trim_m_www_spec(s: Seq<char>) -> Seq<char>
    decreases s.len(),
{
    if starts_with_spec(s, m_dot()) {
        trim_m_www_spec(s.skip(2))
    } else if starts_with_spec(s, www_dot()) {
        trim_m_www_spec(s.skip(4))
    } else {
        s
    }
}

/// Trim any leading "m." or "www." subdomains off a hostname at the start
/// of a string. (Generally you'll call this function with *most* of a URL,
/// after first removing the scheme and the `://` separator.)
pub fn trim_m_www(partial_url: &str) -> (r: &str)
    ensures
        r@ == trim_m_www_spec(partial_url@),
{
    proof {
        reveal_strlit("m.");
        reveal_strlit("www.");
    }
    let mut rest = partial_url;
    loop
        invariant
            trim_m_www_spec(rest@) == trim_m_www_spec(partial_url@),
            "m."@ == m_dot(),
            "www."@ == www_dot(),
        decreases rest@.len(),
    {
        if str_starts_with(rest, "m.") {
            rest = rest.substring_char(2, rest.unicode_len());
        } else if str_starts_with(rest, "www.") {
            rest = rest.substring_char(4, rest.unicode_len());
        } else {
            return rest;
        }
    }
}

/// Why a text can't serve as the URL of a bookmarked page.
#[derive(Clone, Debug)]
pub enum UrlError {
    /// The text is not a URL at all.
    Invalid { url: String },
    /// The URL's scheme is neither `http` nor `https`.
    UnsupportedScheme { scheme: String },
}

/// Whether `e` is the error that a text which is not an http(s) URL
/// deserves: `Invalid` with the text when it is no URL, `UnsupportedScheme`
/// with the scheme otherwise.
pub open spec fn describes_url_error(e: UrlError, url: Seq<char>) -> bool {
    match url_parse_scheme(url) {
        None => match e {
            UrlError::Invalid { url: u } => u@ == url,
            _ => false,
        },
        Some(scheme) => match e {
            UrlError::UnsupportedScheme { scheme: s } => s@ == scheme && !is_web_scheme(scheme),
            _ => false,
        },
    }
}

/// The `http` scheme.
pub open spec fn http_scheme() -> Seq<char> {
    seq!['h', 't', 't', 'p']
}

/// The `https` scheme.
pub open spec fn https_scheme() -> Seq<char> {
    seq!['h', 't', 't', 'p', 's']
}

/// The schemes of web pages that can be bookmarked.
pub open spec fn is_web_scheme(scheme: Seq<char>) -> bool {
    scheme == http_scheme() || scheme == https_scheme()
}

/// The text that remains of `s` once its first `n` bytes (in UTF-8) are cut off.
pub open spec fn drop_utf8_bytes(s: Seq<char>, n: int) -> Seq<char> {
    decode_utf8(encode_utf8(s).subrange(n, encode_utf8(s).len() as int))
}

/// An http(s) URL with its `scheme://` cut off, or `None` for any other
/// text. The cut is as long as the parsed scheme plus `://`, counted from
/// the start of the text.
pub open spec fn scheme_trimmed(url: Seq<char>) -> Option<Seq<char>> {
    match url_parse_scheme(url) {
        Some(scheme) => if is_web_scheme(scheme) {
            Some(drop_utf8_bytes(url, scheme.len() + 3int))
        } else {
            None
        },
        None => None,
    }
}

/// Whether cutting `scheme://` off an http(s) URL would have to split a
/// character or run past its end. This happens only for URLs that the
/// parser accepts without a literal `scheme://` at their start, such as
/// `http:a`.
pub open spec fn scheme_cut_misplaced(url: Seq<char>) -> bool {
    match url_parse_scheme(url) {
        Some(scheme) => is_web_scheme(scheme) && !is_char_boundary(
            encode_utf8(url),
            scheme.len() + 3int,
        ),
        None => false,
    }
}

/// Validate that the input is an HTTP or HTTPS URL, then remove the scheme and
/// the `://` separator. The result can be passed to [`trim_m_www`].
pub fn trim_and_check_scheme(url: &str) -> (r: Result<&str, UrlError>)
    requires
        !scheme_cut_misplaced(url@),
    ensures
        r matches Err(e) ==> describes_url_error(e, url@),
        r is Ok <==> scheme_trimmed(url@) is Some,
        r matches Ok(rest) ==> scheme_trimmed(url@) == Some(rest@),
{
    let scheme = match url_scheme(url) {
        Ok(scheme) => scheme,
        Err(_) => {
            return Err(UrlError::Invalid { url: String::from_str(url) });
        },
    };
    proof {
        reveal_strlit("http");
        reveal_strlit("https");
        assert("http"@ =~= http_scheme());
        assert("https"@ =~= https_scheme());
        encode_utf8_valid_utf8(url@);
    }
    let cut: usize = if str_eq(scheme.as_str(), "http") {
        7
    } else if str_eq(scheme.as_str(), "https") {
        8
    } else {
        return Err(UrlError::UnsupportedScheme { scheme });
    };
    let (_, rest) = url.split_at(cut);
    proof {
        encode_utf8_decode_utf8(rest@);
    }
    Ok(rest)
}

/// The partial URL that a stored prefix is compared against: the URL without
/// its scheme and without leading `m.` or `www.` subdomains.
pub open spec fn matchable_spec(url: Seq<char>) -> Option<Seq<char>> {
    match scheme_trimmed(url) {
        Some(rest) => Some(trim_m_www_spec(rest)),
        None => None,
    }
}

/// Turn a given URL into a partial URL (path and hostname with
/// any `m.` or `www.` subdomains trimmed) that can be compared to a
/// stored prefix string with a simple `matchable LIKE prefix || '%'`
/// SQL expression (or a `.starts_with()` if you're in normal code).
/// This also doubles as a check for valid input URLs.
pub fn matchable_from_url(url: &str) -> (r: Result<&str, UrlError>)
    requires
        !scheme_cut_misplaced(url@),
    ensures
        r is Ok <==> matchable_spec(url@) is Some,
        r matches Ok(m) ==> matchable_spec(url@) == Some(m@),
        r matches Err(e) ==> describes_url_error(e, url@),
{
    match trim_and_check_scheme(url) {
        Ok(rest) => Ok(trim_m_www(rest)),
        Err(e) => Err(e),
    }
}

/// [`matchable_from_url`] for any text: `None` where cutting off the scheme
/// would split a character or run past the end of the text.
pub fn checked_matchable_from_url(url: &str) -> (r: Option<Result<&str, UrlError>>)
    ensures
        r is None <==> scheme_cut_misplaced(url@),
        r matches Some(Ok(m)) ==> matchable_spec(url@) == Some(m@),
        r matches Some(Err(_)) ==> matchable_spec(url@) is None,
{
    if scheme_cut_fits(url) {
        Some(matchable_from_url(url))
    } else {
        None
    }
}

/// Whether an http(s) URL's `scheme://` can be cut off without splitting a
/// character; true for every text that is not an http(s) URL.
pub fn scheme_cut_fits(url: &str) -> (b: bool)
    ensures
        b == !scheme_cut_misplaced(url@),
{
    proof {
        reveal_strlit("http");
        reveal_strlit("https");
        assert("http"@ =~= http_scheme());
        assert("https"@ =~= https_scheme());
        encode_utf8_valid_utf8(url@);
    }
    match url_scheme(url) {
        Ok(scheme) => {
            if str_eq(scheme.as_str(), "http") {
                url.is_char_boundary(7)
            } else if str_eq(scheme.as_str(), "https") {
                url.is_char_boundary(8)
            } else {
                true
            }
        },
        Err(_) => true,
    }
}

/// A prefix matcher as it is stored: without an http(s) scheme, if it had
/// one, and without leading `m.` or `www.` subdomains.
pub open spec fn normalize_prefix_spec(prefix: Seq<char>) -> Seq<char> {
    match scheme_trimmed(prefix) {
        Some(rest) => trim_m_www_spec(rest),
        None => trim_m_www_spec(prefix),
    }
}

/// Clean and normalize a provided prefix matcher string before persisting it.
/// A cleaned prefix can reliably match the results of `matchable_from_url`.
pub fn normalize_prefix_matcher(prefix: &str) -> (r: &str)
    requires
        !scheme_cut_misplaced(prefix@),
    ensures
        r@ == normalize_prefix_spec(prefix@),
{
    // The input shouldn't have a URL scheme, so we normally expect to
    // just eat this error. But if we *happen* to have an http(s) scheme,
    // go ahead and trim it, since the user's intent was still clear.
    let scheme_trimmed = match trim_and_check_scheme(prefix) {
        Ok(s) => s,
        Err(_) => prefix,
    };
    trim_m_www(scheme_trimmed)
}

} // verus!
