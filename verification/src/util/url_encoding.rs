//! Percent-encoding for text embedded in a URL component.
//!
//! The encode set is the WHATWG component percent-encode set
//! (<https://url.spec.whatwg.org/#component-percent-encode-set>): the C0
//! controls and DEL, plus the query, path, userinfo and component extras.
//! Every non-ASCII byte of the UTF-8 encoding is encoded as well, as
//! `percent_encoding::utf8_percent_encode` does for any ASCII set.

use crate::text::string_push;
use vstd::prelude::*;
use vstd::utf8::encode_utf8;

verus! {

/// The ASCII bytes of the component percent-encode set.
pub open spec fn in_uri_component_set(b: u8) -> bool {
    ||| b < 0x20
    ||| b == 0x7f
    // the component set adds these...
    ||| b == 0x24 /* $ */ || b == 0x25 /* % */ || b == 0x26 /* & */
    ||| b == 0x2b /* + */ || b == 0x2c /* , */
    // ...to the userinfo set, which adds these...
    ||| b == 0x2f /* / */ || b == 0x3a /* : */ || b == 0x3b /* ; */
    ||| b == 0x3d /* = */ || b == 0x40 /* @ */ || b == 0x5b /* [ */
    ||| b == 0x5c /* \ */ || b == 0x5d /* ] */ || b == 0x5e /* ^ */
    ||| b == 0x7c /* | */
    // ...to the path set, which adds these...
    ||| b == 0x3f /* ? */ || b == 0x60 /* ` */ || b == 0x7b /* { */
    ||| b == 0x7d /* } */
    // ...to the query set, which is these plus the controls.
    ||| b == 0x20 /* space */ || b == 0x22 /* " */ || b == 0x23 /* # */
    ||| b == 0x3c /* < */ || b == 0x3e /* > */
}

/// Whether a byte of the UTF-8 text is written as `%XX`.
pub open spec fn needs_percent(b: u8) -> bool {
    b >= 0x80 || in_uri_component_set(b)
}

/// The character of a hex digit below 16, upper case.
pub open spec fn hex_digit_upper(n: u8) -> char
    recommends
        n < 16,
{
    if n < 10 {
        (0x30 + n) as char
    } else {
        (0x41 + n - 10) as char
    }
}

/// The text that one byte becomes.
pub open spec fn encode_byte_spec(b: u8) -> Seq<char> {
    if needs_percent(b) {
        seq!['%', hex_digit_upper(b / 16), hex_digit_upper(b % 16)]
    } else {
        seq![b as char]
    }
}

/// The percent-encoding of a byte sequence, byte by byte.
pub open spec fn percent_encode_spec(bytes: Seq<u8>) -> Seq<char>
    decreases bytes.len(),
{
    if bytes.len() == 0 {
        Seq::empty()
    } else {
        encode_byte_spec(bytes[0]) + percent_encode_spec(bytes.drop_first())
    }
}

/// The URI-component encoding of a text: the percent-encoding of its UTF-8 bytes.
pub open spec fn encode_uri_component_spec(c: Seq<char>) -> Seq<char> {
    percent_encode_spec(encode_utf8(c))
}

fn hex_upper(n: u8) -> (c: char)
    requires
        n < 16,
    ensures
        c == hex_digit_upper(n),
{
    if n < 10 {
        ((0x30 + n) as char)
    } else {
        ((0x41 + n - 10) as char)
    }
}

fn is_uri_component_byte(b: u8) -> (r: bool)
    ensures
        r == in_uri_component_set(b),
{
    b < 0x20 || b == 0x7f || b == 0x24 || b == 0x25 || b == 0x26 || b == 0x2b || b == 0x2c
        || b == 0x2f || b == 0x3a || b == 0x3b || b == 0x3d || b == 0x40 || b == 0x5b || b
        == 0x5c || b == 0x5d || b == 0x5e || b == 0x7c || b == 0x3f || b == 0x60 || b == 0x7b
        || b == 0x7d || b == 0x20 || b == 0x22 || b == 0x23 || b == 0x3c || b == 0x3e
}

/// Percent-encode text for use as one component of a URL, the way
/// JavaScript's `encodeURIComponent` does but with the stricter WHATWG
/// component set.
pub fn encode_uri_component(c: &str) -> (r: String)
    ensures
        r@ == encode_uri_component_spec(c@),
{
    let bytes = c.as_bytes();
    let mut out = String::new();
    let mut i: usize = 0;
    assert(bytes@.skip(0) =~= bytes@);
    while i < bytes.len()
        invariant
            i <= bytes@.len(),
            bytes@ == encode_utf8(c@),
            out@ + percent_encode_spec(bytes@.skip(i as int)) == percent_encode_spec(bytes@),
        decreases bytes@.len() - i,
    {
        let b = bytes[i];
        assert(bytes@.skip(i as int).drop_first() =~= bytes@.skip(i + 1));
        let ghost before = out@;
        if b >= 0x80 || is_uri_component_byte(b) {
            string_push(&mut out, '%');
            string_push(&mut out, hex_upper(b / 16));
            string_push(&mut out, hex_upper(b % 16));
        } else {
            string_push(&mut out, b as char);
        }
        assert(out@ =~= before + encode_byte_spec(b));
        i = i + 1;
    }
    assert(bytes@.skip(i as int) =~= Seq::<u8>::empty());
    out
}

} // verus!
