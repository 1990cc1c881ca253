//! Properties of the library as a whole, each proved from the contracts and
//! specifications of the functions involved.

use crate::db::dogears::url_under_prefix;
use crate::db::tokens::{scope_from_text, scope_text};
use crate::args::{cli_scan, import_scan, import_step, ImportScanState};
use crate::db::migrations::{
    count_unapplied, count_unrecognized, count_up, count_wrong, applied_checksum, applied_has,
    found_at, known_up_has, last_of_version, seen_before, tally_spec, AppliedMigration,
    KnownMigration,
};
use crate::db::users::{authenticate_spec, UserWithPasswordHash};
use crate::db::{TokenScope, User};
use crate::thirdparty::{
    url_join_spec, url_parse_origin, url_parse_scheme, bcrypt_verify_spec, hex_digit_lower, hex_lower_spec, username_shape, uuid_v4_bytes,
    uuid_v4_text_spec,
};
use crate::util::url_encoding::{
    encode_byte_spec, encode_uri_component_spec, hex_digit_upper, needs_percent,
    percent_encode_spec,
};
use crate::web::authentication::{auth_allows, AuthAny};
use crate::web::routes::login_redirect_spec;
use vstd::utf8::{
    decode_utf8, decode_utf8_split, encode_utf8, encode_utf8_decode_utf8, encode_utf8_valid_utf8,
    is_ascii_chars, is_ascii_chars_encode_utf8,
};
use crate::web::web_result::{displayed_message_spec, masked_500_message};
use crate::text::{is_white_space, starts_with_spec, trim_end_spec, trim_spec, trim_start_spec};
use crate::util::{
    clean_field_spec, drop_utf8_bytes, scheme_cut_misplaced, http_scheme, https_scheme, m_dot, matchable_spec, normalize_prefix_spec, pagination_of,
    scheme_trimmed, sqlite_offset_spec, total_pages_of, trim_m_www_spec, www_dot, ListMeta,
    PAGE_MAX_SIZE,
};
use vstd::prelude::*;

verus! {

/// Page-turning links never lead astray: the current page is at least 1;
/// a "previous" link goes back and stays within the last page; a "next"
/// link goes exactly one page forward and exists only while the current
/// page is before the last; the first page has no "previous" link.
pub proof fn law_pagination_links(meta: ListMeta)
    requires
        meta.size > 0,
    ensures
        ({
            let p = pagination_of(meta);
            &&& p.current_page >= 1
            &&& p.total_count == meta.count
            &&& p.total_pages == total_pages_of(meta.count as int, meta.size as int)
            &&& (p.prev_page is None <==> p.current_page == 1)
            &&& (p.prev_page matches Some(q) ==> q < p.current_page && q <= p.total_pages)
            &&& (p.next_page is None <==> p.current_page >= p.total_pages)
            &&& (p.next_page matches Some(q) ==> q == p.current_page + 1 && q <= p.total_pages)
        }),
{
    lemma_total_pages_bounds(meta.count as int, meta.size as int);
}

/// The pages hold the whole list and no more: `total_pages` pages of
/// `size` items hold `count` items, and one page fewer would not.
pub proof fn law_total_pages_cover(count: u32, size: u32)
    requires
        size > 0,
    ensures
        ({
            let t = total_pages_of(count as int, size as int);
            &&& 0 <= t <= count
            &&& count <= t * size
            &&& (count > 0 ==> (t - 1) * size < count)
            &&& (count == 0 ==> t == 0)
        }),
{
    lemma_total_pages_bounds(count as int, size as int);
}

proof fn lemma_total_pages_bounds(count: int, size: int)
    requires
        size > 0,
        count >= 0,
    ensures
        ({
            let t = total_pages_of(count, size);
            &&& 0 <= t <= count
            &&& count <= t * size
            &&& (count > 0 ==> (t - 1) * size < count)
            &&& (count == 0 ==> t == 0)
        }),
{
    let q = count / size;
    let r = count % size;
    assert(count == q * size + r && 0 <= r < size) by (nonlinear_arith)
        requires
            size > 0,
            count >= 0,
            q == count / size,
            r == count % size,
    ;
    assert(q >= 0 && q <= count) by (nonlinear_arith)
        requires
            size > 0,
            count >= 0,
            q == count / size,
    ;
    if r == 0 {
        assert(count <= q * size);
        if count > 0 {
            assert((q - 1) * size < count) by (nonlinear_arith)
                requires
                    count == q * size,
                    size > 0,
            ;
        } else {
            assert(q == 0) by (nonlinear_arith)
                requires
                    count == 0,
                    size > 0,
                    q == count / size,
            ;
        }
    } else {
        assert(count <= (q + 1) * size) by (nonlinear_arith)
            requires
                count == q * size + r,
                r < size,
        ;
        assert(q * size < count);
        assert(q + 1 <= count) by (nonlinear_arith)
            requires
                count == q * size + r,
                r >= 1,
                size >= 1,
                q >= 0,
        ;
    }
}

/// Consecutive pages tile the list: the next page starts exactly one page
/// size after the start of this one, and the first page starts at 0.
pub proof fn law_offsets_tile(page: u32, size: u32)
    requires
        1 <= page < u32::MAX,
        size <= PAGE_MAX_SIZE,
    ensures
        sqlite_offset_spec(1, size) == Ok::<i64, crate::util::OffsetError>(0),
        sqlite_offset_spec(page, size) matches Ok(a) && sqlite_offset_spec(
            (page + 1) as u32,
            size,
        ) matches Ok(b) && b == a + size,
{
    assert((page - 1) * size <= 4294967295 * 500) by (nonlinear_arith)
        requires
            1 <= page <= 4294967295,
            size <= 500,
    ;
    assert(page * size <= 4294967295 * 500) by (nonlinear_arith)
        requires
            1 <= page <= 4294967295,
            size <= 500,
    ;
    assert((page - 1) * size >= 0) by (nonlinear_arith)
        requires
            page >= 1,
    ;
    assert(page * size == (page - 1) * size + size) by (nonlinear_arith);
}

proof fn lemma_trim_start_shape(s: Seq<char>)
    ensures
        exists|k: int| 0 <= k <= s.len() && trim_start_spec(s) == s.skip(k),
        trim_start_spec(s).len() == 0 || !is_white_space(trim_start_spec(s)[0]),
    decreases s.len(),
{
    if s.len() > 0 && is_white_space(s[0]) {
        lemma_trim_start_shape(s.drop_first());
        let k = choose|k: int|
            0 <= k <= s.drop_first().len() && trim_start_spec(s.drop_first())
                == s.drop_first().skip(k);
        assert(s.drop_first().skip(k) =~= s.skip(k + 1));
    } else {
        assert(s.skip(0) =~= s);
    }
}

proof fn lemma_trim_end_shape(s: Seq<char>)
    ensures
        exists|k: int| 0 <= k <= s.len() && trim_end_spec(s) == s.take(k),
        trim_end_spec(s).len() == 0 || !is_white_space(trim_end_spec(s).last()),
    decreases s.len(),
{
    if s.len() > 0 && is_white_space(s.last()) {
        lemma_trim_end_shape(s.drop_last());
        let k = choose|k: int|
            0 <= k <= s.drop_last().len() && trim_end_spec(s.drop_last()) == s.drop_last().take(
                k,
            );
        assert(s.drop_last().take(k) =~= s.take(k));
    } else {
        assert(s.take(s.len() as int) =~= s);
    }
}

/// Trimming white space twice is trimming it once.
pub proof fn law_trim_idempotent(s: Seq<char>)
    ensures
        trim_spec(trim_spec(s)) == trim_spec(s),
{
    let a = trim_start_spec(s);
    let u = trim_end_spec(a);
    lemma_trim_start_shape(s);
    lemma_trim_end_shape(a);
    let k = choose|k: int| 0 <= k <= a.len() && u == a.take(k);
    if u.len() > 0 {
        assert(u[0] == a[0]);
    }
    assert(trim_start_spec(u) == u);
    if u.len() > 0 {
        assert(trim_end_spec(u) == u);
    }
}

/// Cleaning an optional form field twice is cleaning it once.
pub proof fn law_clean_field_idempotent(maybe: Option<Seq<char>>)
    ensures
        clean_field_spec(clean_field_spec(maybe)) == clean_field_spec(maybe),
{
    if let Some(e) = maybe {
        law_trim_idempotent(e);
    }
}

/// What trimming subdomains leaves is a suffix of the input that starts with
/// neither `m.` nor `www.`, so trimming again changes nothing.
pub proof fn law_trim_m_www_settles(s: Seq<char>)
    ensures
        !starts_with_spec(trim_m_www_spec(s), m_dot()),
        !starts_with_spec(trim_m_www_spec(s), www_dot()),
        trim_m_www_spec(trim_m_www_spec(s)) == trim_m_www_spec(s),
        exists|k: int| 0 <= k <= s.len() && trim_m_www_spec(s) == s.skip(k),
    decreases s.len(),
{
    if starts_with_spec(s, m_dot()) {
        law_trim_m_www_settles(s.skip(2));
        let k = choose|k: int|
            0 <= k <= s.skip(2).len() && trim_m_www_spec(s.skip(2)) == s.skip(2).skip(k);
        assert(s.skip(2).skip(k) =~= s.skip(k + 2));
    } else if starts_with_spec(s, www_dot()) {
        law_trim_m_www_settles(s.skip(4));
        let k = choose|k: int|
            0 <= k <= s.skip(4).len() && trim_m_www_spec(s.skip(4)) == s.skip(4).skip(k);
        assert(s.skip(4).skip(k) =~= s.skip(k + 4));
    } else {
        assert(s.skip(0) =~= s);
    }
}

/// Leading `m.` and `www.` subdomains don't change what a partial URL matches.
pub proof fn law_m_www_ignored(s: Seq<char>)
    ensures
        trim_m_www_spec(m_dot() + s) == trim_m_www_spec(s),
        trim_m_www_spec(www_dot() + s) == trim_m_www_spec(s),
{
    assert((m_dot() + s).subrange(0, 2) =~= m_dot());
    assert((m_dot() + s).skip(2) =~= s);
    assert((www_dot() + s).subrange(0, 2) != m_dot());
    assert((www_dot() + s).subrange(0, 4) =~= www_dot());
    assert((www_dot() + s).skip(4) =~= s);
}

/// A URL, used as a prefix, normalizes to exactly what the URL is matched
/// by, so a dogear whose prefix is the bookmarked URL itself accepts it.
pub proof fn law_url_is_its_own_prefix(url: Seq<char>)
    requires
        matchable_spec(url) is Some,
    ensures
        Some(normalize_prefix_spec(url)) == matchable_spec(url),
        url_under_prefix(url, url),
{
    let m = matchable_spec(url)->0;
    assert(m.subrange(0, m.len() as int) =~= m);
}

/// A stored prefix normalizes to itself, unless it could itself be read as
/// an http(s) URL; so offering a dogear's own prefix again names the same
/// dogear.
pub proof fn law_normalized_prefix_is_stable(prefix: Seq<char>)
    requires
        scheme_trimmed(normalize_prefix_spec(prefix)) is None,
    ensures
        normalize_prefix_spec(normalize_prefix_spec(prefix)) == normalize_prefix_spec(prefix),
{
    match scheme_trimmed(prefix) {
        Some(rest) => law_trim_m_www_settles(rest),
        None => law_trim_m_www_settles(prefix),
    }
}

/// A normalized prefix is what is left at the end of the given prefix once
/// an http(s) scheme and leading `m.` / `www.` subdomains are cut off: a
/// suffix of it that starts with neither `m.` nor `www.`. A prefix that is
/// not an http(s) URL only loses its leading subdomains.
pub proof fn law_normalized_prefix_is_a_suffix(prefix: Seq<char>)
    requires
        !scheme_cut_misplaced(prefix),
    ensures
        exists|k: int| 0 <= k <= prefix.len() && normalize_prefix_spec(prefix) == prefix.skip(k),
        !starts_with_spec(normalize_prefix_spec(prefix), m_dot()),
        !starts_with_spec(normalize_prefix_spec(prefix), www_dot()),
        scheme_trimmed(prefix) is None ==> normalize_prefix_spec(prefix) == trim_m_www_spec(
            prefix,
        ),
{
    match scheme_trimmed(prefix) {
        Some(rest) => {
            let scheme = url_parse_scheme(prefix)->0;
            let n: int = scheme.len() + 3int;
            let bytes = encode_utf8(prefix);
            encode_utf8_valid_utf8(prefix);
            encode_utf8_decode_utf8(prefix);
            decode_utf8_split(bytes, n);
            let head = decode_utf8(bytes.subrange(0, n));
            assert(prefix =~= head + rest);
            let k1 = head.len() as int;
            assert(rest =~= prefix.skip(k1));
            law_trim_m_www_settles(rest);
            let k2 = choose|k: int|
                0 <= k <= rest.len() && trim_m_www_spec(rest) == rest.skip(k);
            assert(rest.skip(k2) =~= prefix.skip(k1 + k2));
        },
        None => {
            law_trim_m_www_settles(prefix);
        },
    }
}

/// The scheme and separator of an http URL.
pub open spec fn http_start() -> Seq<char> {
    seq!['h', 't', 't', 'p', ':', '/', '/']
}

/// The scheme and separator of an https URL.
pub open spec fn https_start() -> Seq<char> {
    seq!['h', 't', 't', 'p', 's', ':', '/', '/']
}

/// UTF-8 encodes a concatenation piece by piece.
proof fn lemma_encode_utf8_concat(a: Seq<char>, b: Seq<char>)
    ensures
        encode_utf8(a + b) == encode_utf8(a) + encode_utf8(b),
    decreases a.len(),
{
    if a.len() == 0 {
        assert(a + b =~= b);
        assert(encode_utf8(a) =~= Seq::<u8>::empty());
        assert(encode_utf8(a) + encode_utf8(b) =~= encode_utf8(b));
    } else {
        lemma_encode_utf8_concat(a.drop_first(), b);
        assert((a + b).drop_first() =~= a.drop_first() + b);
        assert((a + b)[0] == a[0]);
        assert(encode_utf8(a + b) =~= encode_utf8(a) + encode_utf8(b));
    }
}

/// Cutting the bytes of an ASCII start off a text leaves the rest.
proof fn lemma_drop_ascii_start(start: Seq<char>, rest: Seq<char>)
    requires
        is_ascii_chars(start),
    ensures
        drop_utf8_bytes(start + rest, start.len() as int) == rest,
{
    lemma_encode_utf8_concat(start, rest);
    is_ascii_chars_encode_utf8(start);
    let e = encode_utf8(start + rest);
    assert(e.subrange(start.len() as int, e.len() as int) =~= encode_utf8(rest));
    encode_utf8_decode_utf8(rest);
}

/// Whether a page is bookmarked over http or over https doesn't change what
/// it matches: both forms of a URL are matched as the same partial URL.
pub proof fn law_scheme_ignored(rest: Seq<char>)
    requires
        url_parse_scheme(http_start() + rest) == Some(http_scheme()),
        url_parse_scheme(https_start() + rest) == Some(https_scheme()),
    ensures
        matchable_spec(http_start() + rest) == Some(trim_m_www_spec(rest)),
        matchable_spec(https_start() + rest) == Some(trim_m_www_spec(rest)),
{
    assert(is_ascii_chars(http_start()));
    assert(is_ascii_chars(https_start()));
    lemma_drop_ascii_start(http_start(), rest);
    lemma_drop_ascii_start(https_start(), rest);
}

/// After logging in, the user is only ever sent somewhere on the site: the
/// public URL itself, or the page asked for when it resolves (against the
/// public URL) to a URL of the same, non-opaque origin.
pub proof fn law_login_redirect_stays_on_site(public_url: Seq<char>, return_to: Seq<char>)
    ensures
        login_redirect_spec(public_url, return_to) == public_url || ({
            &&& url_join_spec(public_url, return_to) matches Some((joined, origin))
            &&& login_redirect_spec(public_url, return_to) == joined
            &&& url_parse_origin(public_url) == Some(origin)
            &&& origin != "null"@
        }),
{
}

/// Every token scope survives being stored as text and read back.
pub proof fn law_scope_text_round_trip(scope: TokenScope)
    ensures
        scope_from_text(scope_text(scope)) == scope,
{
    reveal_strlit("write_dogears");
    reveal_strlit("manage_dogears");
    reveal_strlit("INVALID");
    assert("write_dogears"@.len() == 13);
    assert("manage_dogears"@.len() == 14);
    assert("INVALID"@.len() == 7);
    assert("INVALID"@ != "write_dogears"@);
    assert("INVALID"@ != "manage_dogears"@);
    assert("manage_dogears"@ != "write_dogears"@);
}

/// A login session passes every route, whatever scopes it accepts; a token
/// passes exactly the routes that list its scope, so accepting more scopes
/// never locks a token out.
pub proof fn law_auth_scopes(auth: AuthAny, scopes: Seq<TokenScope>, more: Seq<TokenScope>)
    requires
        forall|s: TokenScope| scopes.contains(s) ==> more.contains(s),
    ensures
        auth is Session ==> auth_allows(auth, scopes),
        auth_allows(auth, scopes) ==> auth_allows(auth, more),
        auth matches AuthAny::Token { token, .. } ==> (auth_allows(auth, scopes)
            <==> scopes.contains(scope_from_text(token.scope@))),
{
}

/// A password checks out against the hash stored for it: the account comes
/// back when logging in with the same password.
pub proof fn law_password_round_trip(user: User, password: Seq<u8>, password_hash: String)
    requires
        bcrypt_verify_spec(password, password_hash@) == Some(true),
    ensures
        authenticate_spec(Some(UserWithPasswordHash { user, password_hash }), password) == Some(
            Some(user),
        ),
        authenticate_spec(None, password) == Some(None::<User>),
{
}

/// In production a 500's details are replaced by a generic message; every
/// other response, and every response outside production, shows its own
/// message.
pub proof fn law_production_masks_only_500s(production: bool, status: u16, message: Seq<char>)
    ensures
        production && status == 500 ==> displayed_message_spec(production, status, message)
            == masked_500_message(),
        !(production && status == 500) ==> displayed_message_spec(production, status, message)
            == message,
{
}

/// An accepted username has no white space around it, so cleaning it again
/// leaves it as it is.
pub proof fn law_username_stable(name: Seq<char>)
    requires
        username_shape(name),
    ensures
        trim_spec(name) == name,
{
    assert(!is_white_space(name[0]));
    assert(trim_start_spec(name) == name);
    assert(!is_white_space(name[name.len() - 1]));
    assert(trim_end_spec(name) == name);
}

/// A `--config` flag followed by a path, given where no flag is waiting
/// for its value, sets the config path to it.
pub proof fn law_config_flag_sets_path(args: Seq<String>, flag: String, path: String)
    requires
        flag@ == "--config"@,
        !cli_scan(args, args.len() as int).awaiting_config,
    ensures
        cli_scan(args.push(flag).push(path), args.len() + 2int).config == Some(path@),
        !cli_scan(args.push(flag).push(path), args.len() + 2int).awaiting_config,
{
    reveal_strlit("--config");
    reveal_strlit("--migrate");
    reveal_strlit("--status");
    assert("--config"@.len() == 8 && "--migrate"@.len() == 9);
    assert("--config"@[2] == 'c' && "--status"@[2] == 's');
    assert("--config"@ != "--migrate"@);
    assert("--config"@ != "--status"@);
    let a1 = args.push(flag);
    let a2 = a1.push(path);
    assert(cli_scan(a2, args.len() as int) == cli_scan(args, args.len() as int)) by {
        lemma_cli_scan_prefix(args, a2, args.len() as int);
    }
    assert(a2[args.len() as int] == flag);
    assert(a2[args.len() + 1int] == path);
    let n = args.len() as int;
    assert(cli_scan(a2, n + 1) == crate::args::cli_step(cli_scan(a2, n), flag@));
    assert(cli_scan(a2, n + 1).awaiting_config);
    assert(cli_scan(a2, n + 2) == crate::args::cli_step(cli_scan(a2, n + 1), path@));
}

proof fn lemma_cli_scan_prefix(a: Seq<String>, b: Seq<String>, n: int)
    requires
        0 <= n <= a.len(),
        n <= b.len(),
        forall|i: int| 0 <= i < n ==> a[i] == b[i],
    ensures
        cli_scan(a, n) == cli_scan(b, n),
    decreases n,
{
    if n > 0 {
        lemma_cli_scan_prefix(a, b, n - 1);
    }
}

/// Whether a character is a lower-case hex digit.
pub open spec fn is_lower_hex(c: char) -> bool {
    ('0' <= c <= '9') || ('a' <= c <= 'f')
}

/// Lower-case hex writes two digits per byte, high nibble first, and uses
/// only `0-9a-f`.
pub proof fn law_hex_lower_digits(bytes: Seq<u8>)
    ensures
        hex_lower_spec(bytes).len() == 2 * bytes.len(),
        forall|i: int|
            0 <= i < bytes.len() ==> hex_lower_spec(bytes)[2 * i] == hex_digit_lower(
                #[trigger] bytes[i] / 16,
            ) && hex_lower_spec(bytes)[2 * i + 1] == hex_digit_lower(bytes[i] % 16),
        forall|j: int| 0 <= j < hex_lower_spec(bytes).len() ==> is_lower_hex(#[trigger] hex_lower_spec(bytes)[j]),
    decreases bytes.len(),
{
    if bytes.len() > 0 {
        let rest = bytes.drop_first();
        law_hex_lower_digits(rest);
        let h = hex_lower_spec(bytes);
        let d = seq![hex_digit_lower(bytes[0] / 16), hex_digit_lower(bytes[0] % 16)];
        assert(h == d + hex_lower_spec(rest));
        assert forall|i: int| 0 <= i < bytes.len() implies h[2 * i] == hex_digit_lower(
            #[trigger] bytes[i] / 16,
        ) && h[2 * i + 1] == hex_digit_lower(bytes[i] % 16) by {
            if i > 0 {
                assert(bytes[i] == rest[i - 1]);
                assert(h[2 * i] == hex_lower_spec(rest)[2 * (i - 1)]);
                assert(h[2 * i + 1] == hex_lower_spec(rest)[2 * (i - 1) + 1]);
            }
        }
        assert forall|j: int| 0 <= j < h.len() implies is_lower_hex(#[trigger] h[j]) by {
            if j >= 2 {
                assert(h[j] == hex_lower_spec(rest)[j - 2]);
            } else {
                assert(bytes[0] / 16 < 16 && bytes[0] % 16 < 16);
            }
        }
    }
}

/// Every session id and token is a version 4 UUID in its standard text
/// form: 36 characters, hyphens at positions 8, 13, 18 and 23, version
/// digit `4` at position 14, variant digit `8`, `9`, `a` or `b` at 19.
pub proof fn law_uuid_v4_format(bytes: Seq<u8>)
    requires
        bytes.len() == 16,
    ensures
        ({
            let t = uuid_v4_text_spec(bytes);
            &&& t.len() == 36
            &&& t[8] == '-' && t[13] == '-' && t[18] == '-' && t[23] == '-'
            &&& t[14] == '4'
            &&& (t[19] == '8' || t[19] == '9' || t[19] == 'a' || t[19] == 'b')
        }),
{
    let v = uuid_v4_bytes(bytes);
    law_hex_lower_digits(v);
    let h = hex_lower_spec(v);
    assert(v[6] == (bytes[6] % 16 + 0x40) as u8);
    assert(v[8] == (bytes[8] % 64 + 0x80) as u8);
    assert(h[12] == hex_digit_lower(v[6] / 16));
    assert(h[16] == hex_digit_lower(v[8] / 16));
    assert(v[6] / 16 == 4);
    assert(8 <= v[8] / 16 <= 11);
    let t = uuid_v4_text_spec(bytes);
    assert(t[14] == h[12]);
    assert(t[19] == h[16]);
}

/// Whether a character may stand as itself in a URI component: an ASCII
/// character outside the component percent-encode set.
pub open spec fn uri_safe_char(c: char) -> bool {
    (c as u32) < 0x80 && !needs_percent(c as u8)
}

/// Percent-encoding leaves only characters that are safe in a URI
/// component, plus the `%` that starts each escape.
pub proof fn law_percent_encoding_is_uri_safe(bytes: Seq<u8>)
    ensures
        forall|i: int|
            0 <= i < percent_encode_spec(bytes).len() ==> #[trigger] percent_encode_spec(bytes)[i]
                == '%' || uri_safe_char(percent_encode_spec(bytes)[i]),
    decreases bytes.len(),
{
    if bytes.len() > 0 {
        let rest = bytes.drop_first();
        law_percent_encoding_is_uri_safe(rest);
        let e = encode_byte_spec(bytes[0]);
        let out = percent_encode_spec(bytes);
        assert(out == e + percent_encode_spec(rest));
        assert forall|i: int| 0 <= i < out.len() implies #[trigger] out[i] == '%' || uri_safe_char(
            out[i],
        ) by {
            if i >= e.len() {
                assert(out[i] == percent_encode_spec(rest)[i - e.len()]);
            } else if needs_percent(bytes[0]) {
                let hi = bytes[0] / 16;
                let lo = bytes[0] % 16;
                if i == 1 {
                    assert(out[i] == hex_digit_upper(hi));
                } else if i == 2 {
                    assert(out[i] == hex_digit_upper(lo));
                }
            } else {
                assert(out[i] == bytes[0] as char);
            }
        }
    }
}

/// A bookmarklet or any other encoded text is safe inside a URL.
pub proof fn law_uri_component_is_safe(text: Seq<char>)
    ensures
        forall|i: int|
            0 <= i < encode_uri_component_spec(text).len() ==> #[trigger] encode_uri_component_spec(
                text,
            )[i] == '%' || uri_safe_char(encode_uri_component_spec(text)[i]),
{
    law_percent_encoding_is_uri_safe(encode_utf8(text));
}

/// The checksum recorded for a version that only one applied record has is
/// that record's checksum.
proof fn lemma_applied_checksum_unique(applied: Seq<AppliedMigration>, k: int)
    requires
        0 <= k < applied.len(),
        forall|i: int| 0 <= i < applied.len() && i != k ==> applied[i].version != applied[k].version,
    ensures
        applied_checksum(applied, applied[k].version) == applied[k].checksum@,
    decreases applied.len(),
{
    if k < applied.len() - 1 {
        let shorter = applied.drop_last();
        assert(shorter[k] == applied[k]);
        assert forall|i: int| 0 <= i < shorter.len() && i != k implies shorter[i].version
            != shorter[k].version by {
            assert(shorter[i] == applied[i]);
        }
        lemma_applied_checksum_unique(shorter, k);
    }
}

/// The migration check finds nothing wrong with a database that has
/// exactly the known migrations applied: the same versions, in the same
/// order, with the same checksums.
pub proof fn law_migrations_all_applied_are_clean(
    known: Seq<KnownMigration>,
    applied: Seq<AppliedMigration>,
)
    requires
        known.len() == applied.len(),
        forall|j: int| 0 <= j < known.len() ==> !(#[trigger] known[j]).is_down,
        forall|j: int|
            0 <= j < known.len() ==> (#[trigger] applied[j]).version == known[j].version
                && applied[j].checksum@ == known[j].checksum@,
        forall|i: int, j: int|
            0 <= i < known.len() && 0 <= j < known.len() && i != j ==> known[i].version
                != known[j].version,
    ensures
        tally_spec(known, applied) == (0nat, 0nat, 0nat, known.len()),
{
    lemma_clean_counts(known, applied, known.len() as int);
    lemma_no_unrecognized(known, applied, applied.len() as int);
}

/// Whether each of the first `n` known up migrations is applied with the
/// checksum it ships with.
pub open spec fn known_applied_upto(
    known: Seq<KnownMigration>,
    applied: Seq<AppliedMigration>,
    n: int,
) -> bool {
    forall|j: int|
        0 <= j < n && !(#[trigger] known[j]).is_down ==> applied_has(applied, known[j].version)
            && applied_checksum(applied, known[j].version) == known[j].checksum@
}

/// Whether no two known up migrations share a version.
pub open spec fn known_up_versions_distinct(known: Seq<KnownMigration>) -> bool {
    forall|i: int, j: int|
        0 <= i < j < known.len() && !(#[trigger] known[i]).is_down && !(#[trigger] known[j]).is_down
            ==> known[i].version != known[j].version
}

/// The migration check finds nothing wrong (no migration unapplied, none
/// with a changed checksum) exactly when every known up migration is
/// applied with the checksum it ships with. Applied versions that the app
/// doesn't know never count as wrong. Stated where no two known up
/// migrations share a version.
pub proof fn law_migrations_clean_iff_all_applied(
    known: Seq<KnownMigration>,
    applied: Seq<AppliedMigration>,
)
    requires
        known_up_versions_distinct(known),
    ensures
        (tally_spec(known, applied).0 == 0 && tally_spec(known, applied).1 == 0)
            <==> known_applied_upto(known, applied, known.len() as int),
{
    lemma_clean_iff_applied(known, applied, known.len() as int);
}

proof fn lemma_clean_iff_applied(known: Seq<KnownMigration>, applied: Seq<AppliedMigration>, n: int)
    requires
        0 <= n <= known.len(),
        known_up_versions_distinct(known),
    ensures
        (count_wrong(known, applied, n) == 0 && count_unapplied(known, applied, n) == 0)
            <==> known_applied_upto(known, applied, n),
    decreases n,
{
    if n > 0 {
        lemma_clean_iff_applied(known, applied, n - 1);
        let j = n - 1;
        if !known[j].is_down {
            assert(!seen_before(known, j)) by {
                if seen_before(known, j) {
                    let i = choose|i: int|
                        0 <= i < j && !known[i].is_down && #[trigger] known[i].version
                            == known[j].version;
                    assert(known[i].version != known[j].version);
                }
            }
        }
        if known_applied_upto(known, applied, n) {
            assert(known_applied_upto(known, applied, n - 1));
        }
        if known_applied_upto(known, applied, n - 1) && (known[j].is_down || (applied_has(
            applied,
            known[j].version,
        ) && applied_checksum(applied, known[j].version) == known[j].checksum@)) {
            assert forall|k: int|
                0 <= k < n && !(#[trigger] known[k]).is_down implies applied_has(
                applied,
                known[k].version,
            ) && applied_checksum(applied, known[k].version) == known[k].checksum@ by {
                if k < n - 1 {
                }
            }
        }
    }
}

proof fn lemma_clean_counts(known: Seq<KnownMigration>, applied: Seq<AppliedMigration>, n: int)
    requires
        0 <= n <= known.len(),
        known.len() == applied.len(),
        forall|j: int| 0 <= j < known.len() ==> !(#[trigger] known[j]).is_down,
        forall|j: int|
            0 <= j < known.len() ==> (#[trigger] applied[j]).version == known[j].version
                && applied[j].checksum@ == known[j].checksum@,
        forall|i: int, j: int|
            0 <= i < known.len() && 0 <= j < known.len() && i != j ==> known[i].version
                != known[j].version,
    ensures
        count_wrong(known, applied, n) == 0,
        count_unapplied(known, applied, n) == 0,
        count_up(known, n) == n,
    decreases n,
{
    if n > 0 {
        lemma_clean_counts(known, applied, n - 1);
        let j = n - 1;
        assert(applied[j].version == known[j].version);
        assert(applied_has(applied, known[j].version));
        assert(!seen_before(known, j));
        assert(found_at(known, applied, j));
        assert forall|i: int| 0 <= i < applied.len() && i != j implies applied[i].version
            != applied[j].version by {
            assert(applied[i].version == known[i].version);
        }
        lemma_applied_checksum_unique(applied, j);
    }
}

proof fn lemma_no_unrecognized(known: Seq<KnownMigration>, applied: Seq<AppliedMigration>, n: int)
    requires
        0 <= n <= applied.len(),
        known.len() == applied.len(),
        forall|j: int| 0 <= j < known.len() ==> !(#[trigger] known[j]).is_down,
        forall|j: int|
            0 <= j < known.len() ==> (#[trigger] applied[j]).version == known[j].version
                && applied[j].checksum@ == known[j].checksum@,
    ensures
        count_unrecognized(known, applied, n) == 0,
    decreases n,
{
    if n > 0 {
        lemma_no_unrecognized(known, applied, n - 1);
        let j = n - 1;
        assert(applied[j].version == known[j].version);
        assert(!known[j].is_down);
        assert(known_up_has(known, applied[j].version));
    }
}


// ------------------------------------------------------------ dogear matching

/// A dogear accepts a URL exactly when the URL's matchable form begins,
/// character for character, with the dogear's normalized prefix. So a URL
/// whose matchable form is shorter than the prefix (a page above the
/// dogear's section) is never accepted, and neither is one that differs
/// from the prefix anywhere within the prefix's length.
pub proof fn law_dogear_accepts_only_urls_under_its_prefix(prefix: Seq<char>, url: Seq<char>)
    ensures
        url_under_prefix(prefix, url) <==> (matchable_spec(url) matches Some(m) && {
            let n = normalize_prefix_spec(prefix);
            &&& n.len() <= m.len()
            &&& forall|i: int| 0 <= i < n.len() ==> #[trigger] m[i] == n[i]
        }),
        (matchable_spec(url) matches Some(m) && m.len() < normalize_prefix_spec(prefix).len())
            ==> !url_under_prefix(prefix, url),
        matchable_spec(url) is None ==> !url_under_prefix(prefix, url),
{
    let n = normalize_prefix_spec(prefix);
    if let Some(m) = matchable_spec(url) {
        if n.len() <= m.len() {
            if forall|i: int| 0 <= i < n.len() ==> #[trigger] m[i] == n[i] {
                assert(m.subrange(0, n.len() as int) =~= n);
            }
            if url_under_prefix(prefix, url) {
                assert forall|i: int| 0 <= i < n.len() implies #[trigger] m[i] == n[i] by {
                    assert(m.subrange(0, n.len() as int)[i] == m[i]);
                }
            }
        }
    }
}

// ------------------------------------------------------------ pagination

/// The page-turning details of a list, in plain arithmetic: the current page
/// is the requested one (page 0 counts as 1); the pages are the fewest that
/// hold the whole list; "previous" is exactly one page back, capped at the
/// last page, and absent on page 1; "next" is exactly one page forward and
/// present only before the last page; the page size is shown only when it
/// isn't the default.
pub proof fn law_pagination_exact(meta: ListMeta)
    requires
        meta.size > 0,
    ensures
        ({
            let p = pagination_of(meta);
            let cur: int = if meta.page < 1 { 1 } else { meta.page as int };
            let t = p.total_pages as int;
            &&& p.current_page == cur
            &&& meta.count <= t * meta.size
            &&& t * meta.size < meta.count + meta.size
            &&& (cur == 1 ==> p.prev_page is None)
            &&& (cur > 1 && cur - 1 <= t ==> p.prev_page == Some((cur - 1) as u32))
            &&& (cur > 1 && cur - 1 > t ==> p.prev_page == Some(t as u32))
            &&& (cur < t ==> p.next_page == Some((cur + 1) as u32))
            &&& (cur >= t ==> p.next_page is None)
            &&& (meta.size == 50 ==> p.page_size is None)
            &&& (meta.size != 50 ==> p.page_size == Some(meta.size))
            &&& p.total_count == meta.count
        }),
{
    let count = meta.count as int;
    let size = meta.size as int;
    lemma_total_pages_bounds(count, size);
    let t = total_pages_of(count, size);
    assert(pagination_of(meta).total_pages as int == t);
    if count > 0 {
        assert(t * size < count + size) by (nonlinear_arith)
            requires
                (t - 1) * size < count,
        ;
    } else {
        assert(t * size == 0) by (nonlinear_arith)
            requires
                t == 0,
        ;
    }
}

// ------------------------------------------------------------ percent-encoding

/// The value of a hex digit character, either case; 16 for any other
/// character.
pub open spec fn hex_value(c: char) -> int {
    if '0' <= c <= '9' {
        c as int - 0x30
    } else if 'A' <= c <= 'F' {
        c as int - 0x41 + 10
    } else if 'a' <= c <= 'f' {
        c as int - 0x61 + 10
    } else {
        16
    }
}

/// Percent-decoding, as a browser does it: `%` followed by two hex digits is
/// the byte they spell; any other character stands for its own code.
pub open spec fn percent_decode(s: Seq<char>) -> Seq<u8>
    decreases s.len(),
{
    if s.len() == 0 {
        Seq::empty()
    } else if s[0] == '%' && s.len() >= 3 && hex_value(s[1]) < 16 && hex_value(s[2]) < 16 {
        seq![(hex_value(s[1]) * 16 + hex_value(s[2])) as u8] + percent_decode(
            s.subrange(3, s.len() as int),
        )
    } else {
        seq![s[0] as u8] + percent_decode(s.drop_first())
    }
}

/// The bytes of text that a URI component may carry as themselves: ASCII
/// letters and digits and `! ' ( ) * - . _ ~`. Every other byte, `%` among
/// them, is escaped.
pub open spec fn kept_in_uri_component(b: u8) -> bool {
    ||| 0x30 <= b <= 0x39
    ||| 0x41 <= b <= 0x5a
    ||| 0x61 <= b <= 0x7a
    ||| b == 0x21 || b == 0x27 || b == 0x28 || b == 0x29 || b == 0x2a
    ||| b == 0x2d || b == 0x2e || b == 0x5f || b == 0x7e
}

proof fn lemma_hex_digit_round_trip(n: u8)
    requires
        n < 16,
    ensures
        hex_value(hex_digit_upper(n)) == n,
        hex_digit_upper(n) != '%',
{
}

/// Each byte is written as itself exactly when it may stand in a URI
/// component, and as `%` with its two upper-case hex digits otherwise.
pub proof fn law_uri_component_byte_escaping(b: u8)
    ensures
        kept_in_uri_component(b) ==> percent_encode_spec(seq![b]) == seq![b as char],
        !kept_in_uri_component(b) ==> percent_encode_spec(seq![b]) == seq![
            '%',
            hex_digit_upper(b / 16),
            hex_digit_upper(b % 16),
        ],
{
    let one = seq![b];
    assert(one.drop_first() =~= Seq::<u8>::empty());
    assert(percent_encode_spec(one.drop_first()) =~= Seq::<char>::empty());
    assert(percent_encode_spec(one) =~= encode_byte_spec(b));
}

/// Percent-encoding loses nothing: decoding the encoded text gives back
/// every byte, so a `%` or an escape-like `%20` in a script survives the
/// trip through a URL.
pub proof fn law_percent_encoding_round_trip(bytes: Seq<u8>)
    ensures
        percent_decode(percent_encode_spec(bytes)) == bytes,
    decreases bytes.len(),
{
    if bytes.len() > 0 {
        let b = bytes[0];
        let rest = bytes.drop_first();
        law_percent_encoding_round_trip(rest);
        let tail = percent_encode_spec(rest);
        let out = percent_encode_spec(bytes);
        let e = encode_byte_spec(b);
        assert(out == e + tail);
        if needs_percent(b) {
            lemma_hex_digit_round_trip(b / 16);
            lemma_hex_digit_round_trip(b % 16);
            assert(out[0] == '%' && out[1] == hex_digit_upper(b / 16) && out[2]
                == hex_digit_upper(b % 16));
            assert(out.subrange(3, out.len() as int) =~= tail);
            assert((b / 16) * 16 + b % 16 == b);
            assert(percent_decode(out) =~= seq![b] + percent_decode(tail));
        } else {
            assert(b != 0x25);
            assert(out[0] == b as char);
            assert((b as char) as u8 == b);
            assert(out.drop_first() =~= tail);
            assert(percent_decode(out) =~= seq![b] + percent_decode(tail));
        }
        assert(seq![b] + rest =~= bytes);
    }
}

/// A text encoded as a URI component decodes back to the text's own UTF-8
/// bytes.
pub proof fn law_uri_component_round_trip(text: Seq<char>)
    ensures
        percent_decode(encode_uri_component_spec(text)) == encode_utf8(text),
{
    law_percent_encoding_round_trip(encode_utf8(text));
}

// ------------------------------------------------------------ command line

/// A flag read where no flag is waiting for its value always takes effect,
/// whatever came before: `--migrate` sets migrate, `--status` and `--check`
/// set status, `--version` sets version, and nothing else changes. Flags
/// are never unset by later arguments.
pub proof fn law_cli_flags_take_effect(args: Seq<String>, arg: String)
    requires
        !cli_scan(args, args.len() as int).awaiting_config,
    ensures
        ({
            let before = cli_scan(args, args.len() as int);
            let after = cli_scan(args.push(arg), args.len() + 1int);
            &&& (arg@ == "--migrate"@ ==> after.migrate)
            &&& (arg@ == "--status"@ || arg@ == "--check"@ ==> after.status)
            &&& (arg@ == "--version"@ ==> after.version)
            &&& (before.migrate ==> after.migrate)
            &&& (before.status ==> after.status)
            &&& (before.version ==> after.version)
            &&& (arg@ != "--config"@ ==> after.config == before.config && !after.awaiting_config)
        }),
{
    reveal_strlit("--migrate");
    reveal_strlit("--config");
    reveal_strlit("--status");
    reveal_strlit("--check");
    reveal_strlit("--version");
    let a2 = args.push(arg);
    let n = args.len() as int;
    lemma_cli_scan_prefix(args, a2, n);
    assert(a2[n] == arg);
    assert(cli_scan(a2, n + 1) == crate::args::cli_step(cli_scan(a2, n), arg@));
    assert(cli_scan(a2, n) == cli_scan(args, n));
    assert("--migrate"@[2] == 'm' && "--config"@[2] == 'c' && "--status"@[2] == 's');
    assert("--check"@[2] == 'c' && "--version"@[2] == 'v');
    assert("--check"@.len() == 7 && "--config"@.len() == 8);
    assert("--migrate"@ != "--config"@);
    assert("--check"@ != "--migrate"@ && "--check"@ != "--config"@);
    assert("--status"@ != "--migrate"@ && "--status"@ != "--config"@);
    assert("--version"@ != "--migrate"@ && "--version"@ != "--config"@);
    assert("--version"@ != "--status"@ && "--version"@ != "--check"@);
}

/// A flag, once read, stays set: later arguments never unset `--migrate`,
/// `--status`/`--check` or `--version`.
pub proof fn law_cli_flags_persist(args: Seq<String>, n: int, m: int)
    requires
        0 <= n <= m <= args.len(),
    ensures
        cli_scan(args, n).migrate ==> cli_scan(args, m).migrate,
        cli_scan(args, n).status ==> cli_scan(args, m).status,
        cli_scan(args, n).version ==> cli_scan(args, m).version,
    decreases m - n,
{
    if n < m {
        law_cli_flags_persist(args, n, m - 1);
    }
}

// ------------------------------------------------------------ migration counts

/// Each known migration adds to the counts on its own: an up migration that
/// finds its applied record (the first of its version) with another checksum
/// adds one to the wrong-checksum count, whatever the migrations before it
/// gave; one that finds none adds one to the unapplied count; every up
/// migration adds one to the known count; a down migration adds nothing.
pub proof fn law_migration_counts_step(
    known: Seq<KnownMigration>,
    applied: Seq<AppliedMigration>,
    n: int,
)
    requires
        1 <= n <= known.len(),
    ensures
        count_wrong(known, applied, n) == count_wrong(known, applied, n - 1) + (if !known[n
            - 1].is_down && applied_has(applied, known[n - 1].version) && !seen_before(known, n - 1)
            && applied_checksum(applied, known[n - 1].version) != known[n - 1].checksum@ {
            1int
        } else {
            0int
        }),
        count_unapplied(known, applied, n) == count_unapplied(known, applied, n - 1) + (if !known[n
            - 1].is_down && !(applied_has(applied, known[n - 1].version) && !seen_before(
            known,
            n - 1,
        )) {
            1int
        } else {
            0int
        }),
        count_up(known, n) == count_up(known, n - 1) + (if known[n - 1].is_down {
            0int
        } else {
            1int
        }),
{
}

/// With distinct up versions, the wrong-checksum count is exactly the
/// number of known up migrations applied with another checksum, and the
/// unapplied count the number not applied at all: neither count depends on
/// what the other migrations gave.
pub proof fn law_migration_counts_add_up(
    known: Seq<KnownMigration>,
    applied: Seq<AppliedMigration>,
    n: int,
)
    requires
        0 <= n <= known.len(),
        known_up_versions_distinct(known),
    ensures
        count_wrong(known, applied, n) + count_unapplied(known, applied, n) <= count_up(known, n),
        count_up(known, n) <= n,
    decreases n,
{
    if n > 0 {
        law_migration_counts_add_up(known, applied, n - 1);
    }
}


// ------------------------------------------------------------ trimming

proof fn lemma_trim_start_exact(s: Seq<char>)
    ensures
        exists|k: int|
            0 <= k <= s.len() && trim_start_spec(s) == s.skip(k) && (forall|i: int|
                0 <= i < k ==> is_white_space(#[trigger] s[i])) && (k == s.len()
                || !is_white_space(s[k])),
    decreases s.len(),
{
    if s.len() > 0 && is_white_space(s[0]) {
        let t = s.drop_first();
        lemma_trim_start_exact(t);
        let k = choose|k: int|
            0 <= k <= t.len() && trim_start_spec(t) == t.skip(k) && (forall|i: int|
                0 <= i < k ==> is_white_space(#[trigger] t[i])) && (k == t.len()
                || !is_white_space(t[k]));
        assert(t.skip(k) =~= s.skip(k + 1));
        assert forall|i: int| 0 <= i < k + 1 implies is_white_space(#[trigger] s[i]) by {
            if i > 0 {
                assert(s[i] == t[i - 1]);
            }
        }
        if k + 1 < s.len() {
            assert(s[k + 1] == t[k]);
        }
    } else {
        assert(s.skip(0) =~= s);
    }
}

proof fn lemma_trim_end_exact(s: Seq<char>)
    ensures
        exists|k: int|
            0 <= k <= s.len() && trim_end_spec(s) == s.take(k) && (forall|i: int|
                k <= i < s.len() ==> is_white_space(#[trigger] s[i])) && (k == 0
                || !is_white_space(s[k - 1])),
    decreases s.len(),
{
    if s.len() > 0 && is_white_space(s.last()) {
        let t = s.drop_last();
        lemma_trim_end_exact(t);
        let k = choose|k: int|
            0 <= k <= t.len() && trim_end_spec(t) == t.take(k) && (forall|i: int|
                k <= i < t.len() ==> is_white_space(#[trigger] t[i])) && (k == 0
                || !is_white_space(t[k - 1]));
        assert(t.take(k) =~= s.take(k));
        assert forall|i: int| k <= i < s.len() implies is_white_space(#[trigger] s[i]) by {
            if i < s.len() - 1 {
                assert(s[i] == t[i]);
            }
        }
        if k > 0 {
            assert(s[k - 1] == t[k - 1]);
        }
    } else {
        assert(s.take(s.len() as int) =~= s);
    }
}

/// Trimming cuts off exactly the white space at both ends: what is left is
/// a contiguous piece of the text, everything cut off is white space, and
/// the piece neither starts nor ends with white space.
pub proof fn law_trim_exact(s: Seq<char>)
    ensures
        exists|i: int, j: int|
            #![trigger s.subrange(i, j)]
            0 <= i <= j <= s.len() && trim_spec(s) == s.subrange(i, j) && (forall|k: int|
                0 <= k < i ==> is_white_space(#[trigger] s[k])) && (forall|k: int|
                j <= k < s.len() ==> is_white_space(#[trigger] s[k])) && (i < j ==> !is_white_space(
                s[i]) && !is_white_space(s[j - 1])),
{
    lemma_trim_start_exact(s);
    let i = choose|k: int|
        0 <= k <= s.len() && trim_start_spec(s) == s.skip(k) && (forall|x: int|
            0 <= x < k ==> is_white_space(#[trigger] s[x])) && (k == s.len() || !is_white_space(
            s[k]));
    let a = trim_start_spec(s);
    lemma_trim_end_exact(a);
    let m = choose|k: int|
        0 <= k <= a.len() && trim_end_spec(a) == a.take(k) && (forall|x: int|
            k <= x < a.len() ==> is_white_space(#[trigger] a[x])) && (k == 0 || !is_white_space(
            a[k - 1]));
    let j = i + m;
    assert(a.take(m) =~= s.subrange(i, j));
    assert forall|k: int| j <= k < s.len() implies is_white_space(#[trigger] s[k]) by {
        assert(s[k] == a[k - i]);
    }
    if i < j {
        assert(s[i] == a[0]);
        assert(s[j - 1] == a[m - 1]);
    }
}

/// A form field is cleaned to nothing exactly when it is absent or holds
/// only white space; otherwise it is cleaned to its text without the white
/// space at either end.
pub proof fn law_clean_field_exact(maybe: Option<Seq<char>>)
    ensures
        clean_field_spec(maybe) is None <==> (maybe matches Some(e) ==> forall|k: int|
            0 <= k < e.len() ==> is_white_space(#[trigger] e[k])),
        match maybe {
            Some(e) => match clean_field_spec(maybe) {
                Some(r) => r == trim_spec(e) && r.len() > 0,
                None => true,
            },
            None => true,
        },
{
    if let Some(e) = maybe {
        law_trim_exact(e);
        let (i, j) = choose|i: int, j: int|
            #![trigger e.subrange(i, j)]
            0 <= i <= j <= e.len() && trim_spec(e) == e.subrange(i, j) && (forall|k: int|
                0 <= k < i ==> is_white_space(#[trigger] e[k])) && (forall|k: int|
                j <= k < e.len() ==> is_white_space(#[trigger] e[k])) && (i < j ==> !is_white_space(
                e[i]) && !is_white_space(e[j - 1]));
        if i == j {
            assert forall|k: int| 0 <= k < e.len() implies is_white_space(#[trigger] e[k]) by {
                if k < i {
                } else {
                }
            }
        } else {
            assert(!is_white_space(e[i]));
        }
    }
}

/// Subdomain trimming takes off only `m.` and `www.`: a partial URL that
/// starts with neither is left exactly as it is.
pub proof fn law_trim_m_www_keeps_other_hosts(s: Seq<char>)
    requires
        !(s.len() >= 2 && s[0] == 'm' && s[1] == '.'),
        !(s.len() >= 4 && s[0] == 'w' && s[1] == 'w' && s[2] == 'w' && s[3] == '.'),
    ensures
        trim_m_www_spec(s) == s,
{
    if starts_with_spec(s, m_dot()) {
        assert(s.subrange(0, 2)[0] == s[0] && s.subrange(0, 2)[1] == s[1]);
    }
    if starts_with_spec(s, www_dot()) {
        assert(s.subrange(0, 4)[0] == s[0] && s.subrange(0, 4)[3] == s[3]);
        assert(s.subrange(0, 4)[1] == s[1] && s.subrange(0, 4)[2] == s[2]);
    }
}

// ------------------------------------------------------------ offsets and redirects

/// Page offsets: pages count from 1, a page holds at most 500 items, and
/// page `p` of size `n` starts `(p - 1) * n` items in.
pub proof fn law_offset_exact(page: u32, size: u32)
    ensures
        page == 0 ==> sqlite_offset_spec(page, size) == Err::<i64, crate::util::OffsetError>(
            crate::util::OffsetError::InvalidPage,
        ),
        page > 0 && size > 500 ==> sqlite_offset_spec(page, size) == Err::<
            i64,
            crate::util::OffsetError,
        >(crate::util::OffsetError::PageTooLarge),
        page > 0 && size <= 500 ==> (sqlite_offset_spec(page, size) matches Ok(off) && off == (page
            - 1) * size),
{
    if page > 0 && size <= 500 {
        assert((page - 1) * size <= 4294967295 * 500) by (nonlinear_arith)
            requires
                1 <= page <= 4294967295,
                size <= 500,
        ;
        assert((page - 1) * size >= 0) by (nonlinear_arith)
            requires
                1 <= page,
        ;
    }
}

/// After logging in, the user goes to the page they asked for whenever it
/// resolves (against the public URL) to the site's own non-opaque origin,
/// and to the public URL otherwise.
pub proof fn law_login_redirect_exact(public_url: Seq<char>, return_to: Seq<char>)
    ensures
        match url_join_spec(public_url, return_to) {
            Some((joined, origin)) => if url_parse_origin(public_url) == Some(origin) && origin
                != "null"@ {
                login_redirect_spec(public_url, return_to) == joined
            } else {
                login_redirect_spec(public_url, return_to) == public_url
            },
            None => login_redirect_spec(public_url, return_to) == public_url,
        },
{
}

// ------------------------------------------------------------ import arguments

/// `--postgres_url <URL>` or `--sqlite_url <URL>`, read where no flag is
/// waiting for its value, sets that URL, whatever came before, leaves the
/// other one as it was, and leaves no flag waiting.
pub proof fn law_import_flags_take_effect(args: Seq<String>, flag: String, url: String)
    requires
        import_scan(args, args.len() as int).state == ImportScanState::Scanning,
    ensures
        ({
            let before = import_scan(args, args.len() as int);
            let after = import_scan(args.push(flag).push(url), args.len() + 2int);
            &&& (flag@ == "--postgres_url"@ ==> after.postgres_url == Some(url@)
                && after.sqlite_url == before.sqlite_url)
            &&& (flag@ == "--sqlite_url"@ ==> after.sqlite_url == Some(url@) && after.postgres_url
                == before.postgres_url)
            &&& (flag@ == "--postgres_url"@ || flag@ == "--sqlite_url"@ ==> after.state
                == ImportScanState::Scanning)
        }),
{
    reveal_strlit("--postgres_url");
    reveal_strlit("--sqlite_url");
    assert("--postgres_url"@[2] == 'p' && "--sqlite_url"@[2] == 's');
    assert("--postgres_url"@ != "--sqlite_url"@);
    let n = args.len() as int;
    let a2 = args.push(flag).push(url);
    lemma_import_scan_prefix(args, a2, n);
    assert(a2[n] == flag && a2[n + 1] == url);
    assert(import_scan(a2, n + 1) == import_step(import_scan(a2, n), flag@));
    assert(import_scan(a2, n + 2) == import_step(import_scan(a2, n + 1), url@));
}

proof fn lemma_import_scan_prefix(a: Seq<String>, b: Seq<String>, n: int)
    requires
        0 <= n <= a.len(),
        n <= b.len(),
        forall|i: int| 0 <= i < n ==> a[i] == b[i],
    ensures
        import_scan(a, n) == import_scan(b, n),
    decreases n,
{
    if n > 0 {
        lemma_import_scan_prefix(a, b, n - 1);
    }
}

// ------------------------------------------------------------ unrecognized migrations

/// Each applied record adds one to the unrecognized count when it is the
/// last record of its version and no known up migration has that version,
/// and nothing otherwise.
pub proof fn law_unrecognized_step(
    known: Seq<KnownMigration>,
    applied: Seq<AppliedMigration>,
    n: int,
)
    requires
        1 <= n <= applied.len(),
    ensures
        count_unrecognized(known, applied, n) == count_unrecognized(known, applied, n - 1) + (if (
        forall|k: int| n - 1 < k < applied.len() ==> #[trigger] applied[k].version != applied[n
            - 1].version) && !(exists|i: int|
            0 <= i < known.len() && !known[i].is_down && #[trigger] known[i].version == applied[n
                - 1].version) {
            1int
        } else {
            0int
        }),
{
}

} // verus!
