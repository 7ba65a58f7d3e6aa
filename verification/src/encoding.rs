//! Encodings computed by outside crates: Base64, form-urlencoding, JSON
//! validation, PEM identities and lossy UTF-8 decoding.

use base64::Engine;
use vstd::prelude::*;
use vstd::utf8::{decode_utf8, encode_utf8, valid_utf8};

verus! {

/// The digit of the standard Base64 alphabet (RFC 4648) for a 6-bit value.
pub open spec fn base64_digit(v: int) -> char {
    if v < 26 {
        (65 + v) as char
    } else if v < 52 {
        (97 + v - 26) as char
    } else if v < 62 {
        (48 + v - 52) as char
    } else if v == 62 {
        '+'
    } else {
        '/'
    }
}

/// Standard Base64 with `=` padding: each group of three bytes becomes four
/// digits; a final group of one or two bytes is padded.
pub open spec fn base64_standard(b: Seq<u8>) -> Seq<char>
    decreases b.len(),
{
    if b.len() == 0 {
        seq![]
    } else if b.len() == 1 {
        seq![base64_digit(b[0] as int / 4), base64_digit((b[0] as int % 4) * 16), '=', '=']
    } else if b.len() == 2 {
        seq![
            base64_digit(b[0] as int / 4),
            base64_digit((b[0] as int % 4) * 16 + b[1] as int / 16),
            base64_digit((b[1] as int % 16) * 4),
            '=',
        ]
    } else {
        seq![
            base64_digit(b[0] as int / 4),
            base64_digit((b[0] as int % 4) * 16 + b[1] as int / 16),
            base64_digit((b[1] as int % 16) * 4 + b[2] as int / 64),
            base64_digit(b[2] as int % 64),
        ] + base64_standard(b.skip(3))
    }
}

/// `base64`'s `STANDARD` engine `encode`: the standard alphabet with padding.
#[verifier::external_body]
pub(crate) fn base64_encode(bytes: &[u8]) -> (r: String)
    ensures
        r@ == base64_standard(bytes@),
{
    base64::engine::general_purpose::STANDARD.encode(bytes)
}

/// Bytes that form-urlencoding leaves as they are: `*`, `-`, `.`, `_`,
/// ASCII digits and ASCII letters.
pub open spec fn form_keeps_byte(b: u8) -> bool {
    b == 42 || b == 45 || b == 46 || (48 <= b && b <= 57) || (65 <= b && b <= 90) || b == 95
        || (97 <= b && b <= 122)
}

/// An upper-case hexadecimal digit.
pub open spec fn hex_upper_digit(v: int) -> char {
    if v < 10 {
        (48 + v) as char
    } else {
        (55 + v) as char
    }
}

/// One byte in form-urlencoding: kept, `+` for a space, else `%XX`.
pub open spec fn form_encode_byte(b: u8) -> Seq<char> {
    if form_keeps_byte(b) {
        seq![b as char]
    } else if b == 32 {
        seq!['+']
    } else {
        seq!['%', hex_upper_digit(b as int / 16), hex_upper_digit(b as int % 16)]
    }
}

/// A byte string in form-urlencoding, byte by byte.
pub open spec fn form_encode_bytes(b: Seq<u8>) -> Seq<char>
    decreases b.len(),
{
    if b.len() == 0 {
        seq![]
    } else {
        form_encode_byte(b[0]) + form_encode_bytes(b.drop_first())
    }
}

/// A text in form-urlencoding: its UTF-8 bytes, encoded.
pub open spec fn form_component(s: Seq<char>) -> Seq<char> {
    form_encode_bytes(encode_utf8(s))
}

/// One `name=value` pair in form-urlencoding.
pub open spec fn form_pair(name: Seq<char>, value: Seq<char>) -> Seq<char> {
    form_component(name) + seq!['='] + form_component(value)
}

/// A list of pairs in form-urlencoding, joined by `&`.
pub open spec fn form_body(pairs: Seq<(Seq<char>, Seq<char>)>) -> Seq<char>
    decreases pairs.len(),
{
    if pairs.len() == 0 {
        seq![]
    } else if pairs.len() == 1 {
        form_pair(pairs[0].0, pairs[0].1)
    } else {
        form_body(pairs.drop_last()) + seq!['&'] + form_pair(pairs.last().0, pairs.last().1)
    }
}

/// `form_urlencoded::Serializer::append_pair` on a serializer over `buf`:
/// appends `&` when `buf` is not empty, then the encoded name, `=` and the
/// encoded value.
#[verifier::external_body]
pub(crate) fn form_append_pair(buf: &mut String, name: &str, value: &str)
    ensures
        final(buf)@ == old(buf)@ + (if old(buf)@.len() > 0 {
            seq!['&']
        } else {
            Seq::<char>::empty()
        }) + form_pair(name@, value@),
{
    let mut serializer = url::form_urlencoded::Serializer::new(std::mem::take(buf));
    serializer.append_pair(name, value);
    *buf = serializer.finish();
}

/// Whether `serde_json` parses the text as a JSON value.
pub uninterp spec fn json_accepted(s: Seq<char>) -> bool;

/// `serde_json::from_str::<serde_json::Value>`: whether it succeeds. Nothing
/// is stated about which texts it accepts beyond naming the result.
#[verifier::external_body]
pub(crate) fn json_parses(s: &str) -> (r: bool)
    ensures
        r == json_accepted(s@),
{
    serde_json::from_str::<serde_json::Value>(s).is_ok()
}

/// Whether `reqwest` accepts the bytes as a PEM client identity.
pub uninterp spec fn pem_identity_accepted(pem: Seq<u8>) -> bool;

/// `reqwest::Identity::from_pem`: whether it succeeds. The source shows that
/// it needs a private key and at least one certificate, so an empty buffer is
/// refused; nothing more is stated.
#[verifier::external_body]
pub(crate) fn pem_identity_parses(pem: &[u8]) -> (r: bool)
    ensures
        r == pem_identity_accepted(pem@),
        pem@.len() == 0 ==> !r,
{
    reqwest::Identity::from_pem(pem).is_ok()
}

/// What `String::from_utf8_lossy` makes of the bytes.
pub uninterp spec fn lossy_utf8(b: Seq<u8>) -> Seq<char>;

/// `String::from_utf8_lossy`: valid UTF-8 is decoded as it is; invalid
/// sequences become U+FFFD (left unstated beyond the name).
#[verifier::external_body]
pub(crate) fn utf8_lossy(bytes: &[u8]) -> (r: String)
    ensures
        r@ == lossy_utf8(bytes@),
        valid_utf8(bytes@) ==> r@ == decode_utf8(bytes@),
{
    String::from_utf8_lossy(bytes).into_owned()
}

} // verus!
