//! Content digests of files.

use vstd::prelude::*;
use crate::text::to_chars;
use crate::text::chars_eq;

verus! {

/// The SHA-256 digest of `data`, written as 64 lower-case hexadecimal digits.
/// The digest is computed by the `crypto-hash` crate; this name stands for
/// what it returns.
pub uninterp spec fn sha256_hex(data: Seq<u8>) -> Seq<char>;

/// Calls `crypto_hash::hex_digest` with `Algorithm::SHA256`. Trusted: the
/// result is the SHA-256 digest of `data` in hexadecimal, a function of the
/// bytes alone, and 64 characters long: the digest has 256 bits, and each of
/// its 32 bytes is written as two digits.
#[verifier::external_body]
fn sha256_hex_digest(data: &[u8]) -> (r: String)
    ensures
        r@ == sha256_hex(data@),
        r@.len() == 64,
{
    crypto_hash::hex_digest(crypto_hash::Algorithm::SHA256, data)
}

/// The digest of a file's content.
pub fn content_digest(data: &[u8]) -> (r: String)
    ensures
        r@ == sha256_hex(data@),
        r@.len() == 64,
{
    sha256_hex_digest(data)
}

/// The digest recorded for a file: that of its content, or the empty string
/// for a file that does not exist.
pub open spec fn recorded_hash(content: Option<Seq<u8>>) -> Seq<char> {
    match content {
        Some(data) => sha256_hex(data),
        None => Seq::empty(),
    }
}

/// Two recorded digests show the same content when neither is empty and they
/// are equal. An empty digest stands for a file that could not be read, which
/// never counts as the same.
pub open spec fn same_content(hash: Seq<char>, temp_hash: Seq<char>) -> bool {
    hash.len() > 0 && temp_hash.len() > 0 && hash == temp_hash
}

/// Whether two recorded digests show the same content.
pub fn digests_match(hash: &str, temp_hash: &str) -> (r: bool)
    ensures
        r == same_content(hash@, temp_hash@),
{
    let a = to_chars(hash);
    let b = to_chars(temp_hash);
    if a.len() == 0 {
        return false;
    }
    if b.len() == 0 {
        return false;
    }
    chars_eq(a.as_slice(), b.as_slice())
}

/// Equal bytes have equal digests.
pub proof fn digest_of_equal_bytes(a: Seq<u8>, b: Seq<u8>)
    requires
        a == b,
    ensures
        sha256_hex(a) == sha256_hex(b),
{
}

} // verus!
