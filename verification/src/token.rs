//! CSRF state tokens: fresh random values, URL-safe, generated once per flow.

use vstd::prelude::*;
use base64::Engine;
use rand::RngCore;

verus! {

/// Whether `c` belongs to the URL-safe base64 alphabet
/// (`A`-`Z`, `a`-`z`, `0`-`9`, `-`, `_`).
pub open spec fn is_url_safe_char(c: char) -> bool {
    (65 <= c as u32 && c as u32 <= 90) || (97 <= c as u32 && c as u32 <= 122) || (48 <= c as u32
        && c as u32 <= 57) || c == '-' || c == '_'
}

/// Whether every character of `s` belongs to the URL-safe base64 alphabet,
/// making `s` safe to embed in a query string without escaping.
pub open spec fn is_url_safe(s: Seq<char>) -> bool {
    forall|i: int| 0 <= i < s.len() ==> is_url_safe_char(#[trigger] s[i])
}

/// The URL-safe, unpadded base64 encoding of `bytes`.
pub uninterp spec fn b64url_of(bytes: Seq<u8>) -> Seq<char>;

/// Relies on rand's `thread_rng` and `RngCore::fill_bytes`: fills the buffer
/// from a cryptographically secure source. The result is random, so nothing
/// beyond its length is stated.
#[verifier::external_body]
fn random_bytes_32() -> (r: Vec<u8>)
    ensures
        r@.len() == 32,
{
    let mut bytes = [0u8; 32];
    rand::thread_rng().fill_bytes(&mut bytes);
    bytes.to_vec()
}

/// Relies on base64's `URL_SAFE_NO_PAD` engine: encodes to the URL-safe
/// alphabet (`A`-`Z`, `a`-`z`, `0`-`9`, `-`, `_`), emits no `=` padding, and
/// yields four characters for every three bytes, rounded up.
#[verifier::external_body]
fn base64_url_no_pad(bytes: &Vec<u8>) -> (r: String)
    ensures
        r@ == b64url_of(bytes@),
        r@.len() == (bytes@.len() * 4 + 2) / 3,
        is_url_safe(r@),
{
    base64::engine::general_purpose::URL_SAFE_NO_PAD.encode(bytes)
}

/// Generates the fresh anti-CSRF state token for one flow: 256 bits of
/// entropy, encoded as 43 characters of the URL-safe base64 alphabet, so the
/// token can stand in a query string unescaped.
pub fn generate_random_state() -> (r: String)
    ensures
        r@.len() == 43,
        is_url_safe(r@),
        exists|bytes: Seq<u8>| bytes.len() == 32 && r@ == #[trigger] b64url_of(bytes),
{
    let bytes = random_bytes_32();
    let encoded = base64_url_no_pad(&bytes);
    proof {
        assert(bytes@.len() == 32 && encoded@ == b64url_of(bytes@));
    }
    encoded
}

} // verus!
