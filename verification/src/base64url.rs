//! Base64 with the URL-safe alphabet and without padding, as JWK and JWT fields use it.

use base64::Engine;
use vstd::prelude::*;

verus! {

/// The 64 characters of the URL-safe alphabet, in the order of the values they stand for.
pub open spec fn url_safe_alphabet() -> Seq<char> {
    "ABCDEFGHIJKLMNOPQRSTUVWXYZabcdefghijklmnopqrstuvwxyz0123456789-_"@
}

/// The character that stands for the six-bit value `v`.
pub open spec fn sextet_char(v: int) -> char {
    url_safe_alphabet()[v]
}

/// The unpadded URL-safe base64 text of `bytes`: every three bytes give four characters,
/// and a last group of one or two bytes gives two or three.
pub open spec fn base64url(bytes: Seq<u8>) -> Seq<char>
    decreases bytes.len(),
{
    if bytes.len() == 0 {
        Seq::empty()
    } else if bytes.len() == 1 {
        seq![sextet_char(bytes[0] as int / 4), sextet_char(bytes[0] as int % 4 * 16)]
    } else if bytes.len() == 2 {
        seq![
            sextet_char(bytes[0] as int / 4),
            sextet_char(bytes[0] as int % 4 * 16 + bytes[1] as int / 16),
            sextet_char(bytes[1] as int % 16 * 4),
        ]
    } else {
        seq![
            sextet_char(bytes[0] as int / 4),
            sextet_char(bytes[0] as int % 4 * 16 + bytes[1] as int / 16),
            sextet_char(bytes[1] as int % 16 * 4 + bytes[2] as int / 64),
            sextet_char(bytes[2] as int % 64),
        ] + base64url(bytes.skip(3))
    }
}

/// Whether `c` is a letter, a digit, `-` or `_`.
pub open spec fn is_url_safe_char(c: char) -> bool {
    ('A' <= c && c <= 'Z') || ('a' <= c && c <= 'z') || ('0' <= c && c <= '9') || c == '-' || c
        == '_'
}

/// Whether `text` consists of characters of the URL-safe alphabet only.
pub open spec fn is_base64url_text(text: Seq<char>) -> bool {
    forall|i: int| 0 <= i < text.len() ==> is_url_safe_char(#[trigger] text[i])
}

/// Every six-bit value stands for a character of the alphabet.
pub proof fn lemma_sextet_char_is_url_safe(v: int)
    requires
        0 <= v < 64,
    ensures
        is_url_safe_char(sextet_char(v)),
{
    reveal_strlit("ABCDEFGHIJKLMNOPQRSTUVWXYZabcdefghijklmnopqrstuvwxyz0123456789-_");
}

/// The encoding of `n` bytes has `ceil(4n / 3)` characters, all of the URL-safe
/// alphabet.
pub proof fn lemma_base64url_shape(bytes: Seq<u8>)
    ensures
        base64url(bytes).len() == (4 * bytes.len() + 2) / 3,
        is_base64url_text(base64url(bytes)),
    decreases bytes.len(),
{
    let text = base64url(bytes);
    if bytes.len() == 0 {
    } else if bytes.len() == 1 {
        lemma_sextet_char_is_url_safe(bytes[0] as int / 4);
        lemma_sextet_char_is_url_safe(bytes[0] as int % 4 * 16);
    } else if bytes.len() == 2 {
        lemma_sextet_char_is_url_safe(bytes[0] as int / 4);
        lemma_sextet_char_is_url_safe(bytes[0] as int % 4 * 16 + bytes[1] as int / 16);
        lemma_sextet_char_is_url_safe(bytes[1] as int % 16 * 4);
    } else {
        lemma_sextet_char_is_url_safe(bytes[0] as int / 4);
        lemma_sextet_char_is_url_safe(bytes[0] as int % 4 * 16 + bytes[1] as int / 16);
        lemma_sextet_char_is_url_safe(bytes[1] as int % 16 * 4 + bytes[2] as int / 64);
        lemma_sextet_char_is_url_safe(bytes[2] as int % 64);
        lemma_base64url_shape(bytes.skip(3));
        let rest = base64url(bytes.skip(3));
        assert forall|i: int| 0 <= i < text.len() implies is_url_safe_char(#[trigger] text[i]) by {
            if i >= 4 {
                assert(text[i] == rest[i - 4]);
            }
        }
    }
}

/// Encodes `bytes` as unpadded URL-safe base64.
///
/// Trusted: calls `encode` of `base64::engine::general_purpose::URL_SAFE_NO_PAD`. The
/// contract is the encoding of RFC 4648, section 5, with the padding left out, which is
/// what that engine is documented to produce. The call panics only where the encoded
/// length exceeds `usize`, which no slice in memory can reach.
#[verifier::external_body]
pub(crate) fn encode_base64url(bytes: &[u8]) -> (text: String)
    ensures
        text@ == base64url(bytes@),
{
    base64::engine::general_purpose::URL_SAFE_NO_PAD.encode(bytes)
}

} // verus!
