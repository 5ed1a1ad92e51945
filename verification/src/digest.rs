//! How a target gets the name of its marker: the raw bytes of its path, their
//! SHA-256 digest, and the digest in lower-case hexadecimal.
use vstd::prelude::*;
use data_encoding::HEXLOWER;
use os_str_bytes::OsStrBytes;
use sha2::{Digest, Sha256};
use std::path::Path;

verus! {

/// The SHA-256 digest of a byte string.
pub uninterp spec fn sha256(data: Seq<u8>) -> Seq<u8>;

/// The digit for a value below sixteen: `0` to `9`, then `a` to `f`.
pub open spec fn hex_digit(nibble: int) -> char {
    if nibble < 10 {
        (48 + nibble) as u8 as char
    } else {
        (87 + nibble) as u8 as char
    }
}

/// Lower-case hexadecimal: two digits for each byte, the high half first.
pub open spec fn hex_lower(data: Seq<u8>) -> Seq<char> {
    Seq::new(
        2 * data.len(),
        |i: int|
            if i % 2 == 0 {
                hex_digit(data[i / 2] as int / 16)
            } else {
                hex_digit(data[i / 2] as int % 16)
            },
    )
}

/// The name of the marker that stands for a target: the lower-case
/// hexadecimal SHA-256 digest of the bytes of its path.
pub open spec fn marker_name(target: Seq<char>) -> Seq<char> {
    hex_lower(sha256(vstd::utf8::encode_utf8(target)))
}

/// `os_str_bytes::OsStrBytes::to_raw_bytes` on the path that a string names.
/// For a path made from a string the crate hands back the string's own
/// UTF-8 bytes, on every platform it supports; that is what is claimed.
#[verifier::external_body]
#[allow(deprecated)]
pub(crate) fn raw_bytes(path: &str) -> (bytes: Vec<u8>)
    ensures
        bytes@ == vstd::utf8::encode_utf8(path@),
{
    Path::new(path).to_raw_bytes().into_owned()
}

/// `sha2::Sha256`: `new`, one `update` with all of `data`, then `finalize`.
/// Claimed: the result is the SHA-256 digest of `data`, which has 32 bytes.
#[verifier::external_body]
pub(crate) fn sha256_digest(data: &[u8]) -> (digest: Vec<u8>)
    ensures
        digest@ == sha256(data@),
        digest@.len() == 32,
{
    let mut hasher = Sha256::new();
    hasher.update(data);
    hasher.finalize().to_vec()
}

/// `data_encoding::HEXLOWER.encode`. Claimed: the result is `data` in
/// lower-case hexadecimal. The crate refuses inputs longer than the bound.
#[verifier::external_body]
pub(crate) fn hex_encode(data: &[u8]) -> (text: String)
    requires
        data@.len() <= usize::MAX / 512,
    ensures
        text@ == hex_lower(data@),
{
    HEXLOWER.encode(data)
}

/// Two values below sixteen with the same digit are the same value.
proof fn hex_digit_tells_value(x: int, y: int)
    requires
        0 <= x < 16,
        0 <= y < 16,
        hex_digit(x) == hex_digit(y),
    ensures
        x == y,
{
    assert(hex_digit(x) as u32 == if x < 10 { 48 + x } else { 87 + x });
    assert(hex_digit(y) as u32 == if y < 10 { 48 + y } else { 87 + y });
}

/// Hexadecimal loses nothing: two byte strings with the same digits are the
/// same byte string.
pub proof fn hex_lower_tells_bytes(a: Seq<u8>, b: Seq<u8>)
    requires
        hex_lower(a) == hex_lower(b),
    ensures
        a == b,
{
    assert(hex_lower(a).len() == 2 * a.len());
    assert(hex_lower(b).len() == 2 * b.len());
    assert forall|i: int| 0 <= i < a.len() implies a[i] == b[i] by {
        assert(hex_lower(a)[2 * i] == hex_digit(a[i] as int / 16));
        assert(hex_lower(b)[2 * i] == hex_digit(b[i] as int / 16));
        assert(hex_lower(a)[2 * i + 1] == hex_digit(a[i] as int % 16));
        assert(hex_lower(b)[2 * i + 1] == hex_digit(b[i] as int % 16));
        hex_digit_tells_value(a[i] as int / 16, b[i] as int / 16);
        hex_digit_tells_value(a[i] as int % 16, b[i] as int % 16);
    }
    assert(a =~= b);
}

/// A marker name is stable and tells targets apart as far as SHA-256 does:
/// one target has one name; two targets share a name exactly when the
/// digests of their paths' bytes are the same; and two different targets,
/// be it by a trailing separator or the case of one letter, have different
/// bytes to digest.
pub proof fn marker_name_separates(a: Seq<char>, b: Seq<char>)
    ensures
        a == b ==> marker_name(a) == marker_name(b),
        marker_name(a) == marker_name(b) <==> sha256(vstd::utf8::encode_utf8(a)) == sha256(
            vstd::utf8::encode_utf8(b),
        ),
        vstd::utf8::encode_utf8(a) == vstd::utf8::encode_utf8(b) <==> a == b,
{
    if marker_name(a) == marker_name(b) {
        hex_lower_tells_bytes(
            sha256(vstd::utf8::encode_utf8(a)),
            sha256(vstd::utf8::encode_utf8(b)),
        );
    }
    if vstd::utf8::encode_utf8(a) == vstd::utf8::encode_utf8(b) {
        vstd::utf8::encode_utf8_decode_utf8(a);
        vstd::utf8::encode_utf8_decode_utf8(b);
    }
}

/// Whether a character is a lower-case hexadecimal digit.
pub open spec fn is_hex_digit(c: char) -> bool {
    ('0' <= c && c <= '9') || ('a' <= c && c <= 'f')
}

/// Hexadecimal has two characters for each byte, each of them a lower-case
/// hexadecimal digit.
pub proof fn hex_lower_shape(data: Seq<u8>)
    ensures
        hex_lower(data).len() == 2 * data.len(),
        forall|i: int| 0 <= i < 2 * data.len() ==> is_hex_digit(#[trigger] hex_lower(data)[i]),
{
    assert forall|i: int| 0 <= i < 2 * data.len() implies is_hex_digit(
        #[trigger] hex_lower(data)[i],
    ) by {
        let v = if i % 2 == 0 {
            data[i / 2] as int / 16
        } else {
            data[i / 2] as int % 16
        };
        assert(hex_lower(data)[i] == hex_digit(v));
        assert(hex_digit(v) as u32 == if v < 10 { 48 + v } else { 87 + v });
    }
}

} // verus!
