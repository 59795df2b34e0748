//! Content-digest verification: a file's bytes are hashed with SHA-1 and the
//! digest compared, base64-encoded, against the server-supplied checksum.

use vstd::prelude::*;
use base64::Engine;
use sha1::Digest;

verus! {

/// The SHA-1 digest of a byte sequence, as the `sha1` crate computes it.
pub uninterp spec fn sha1_of(data: Seq<u8>) -> Seq<u8>;

/// The standard (padded) base64 encoding of a byte sequence, as the `base64`
/// crate's `STANDARD` engine computes it.
pub uninterp spec fn base64_of(data: Seq<u8>) -> Seq<char>;

/// Relies on sha1::Sha1::digest: the digest is a function of the input bytes
/// alone and is always 160 bits (20 bytes) long.
#[verifier::external_body]
fn sha1_digest(data: &Vec<u8>) -> (r: Vec<u8>)
    ensures
        r@ == sha1_of(data@),
        r@.len() == 20,
{
    sha1::Sha1::digest(data.as_slice()).to_vec()
}

/// Relies on base64::engine::Engine::encode with the STANDARD engine: the
/// encoding is a function of the input bytes alone, and with padding its
/// length is four characters for every three input bytes, rounded up. The
/// length bound on the input keeps that length representable, which the
/// encoder otherwise treats as a fatal error. The encoding is injective:
/// it is the padded encoding of RFC 4648, whose 64 alphabet characters are
/// distinct, and the crate's decoder recovers the exact input bytes from it;
/// so only the input itself encodes to the returned string.
#[verifier::external_body]
fn base64_encode(data: &Vec<u8>) -> (r: String)
    requires
        4 * ((data@.len() + 2) / 3) <= usize::MAX,
    ensures
        r@ == base64_of(data@),
        r@.len() == 4 * ((data@.len() + 2) / 3),
        forall|other: Seq<u8>| #[trigger] base64_of(other) == r@ ==> other == data@,
{
    base64::engine::general_purpose::STANDARD.encode(data.as_slice())
}

/// The bytes hash to the expected checksum: their SHA-1 digest, base64
/// encoded, equals the expected string exactly.
pub open spec fn spec_checksum_matches(data: Seq<u8>, expected: Seq<char>) -> bool {
    base64_of(sha1_of(data)) == expected
}

/// Hashes the given content and compares the base64-encoded digest against
/// the expected checksum, case-sensitively. Returns true exactly when they
/// are equal; and since the encoding is injective, any content whose digest
/// differs from an accepted content's digest is rejected against the same
/// expected checksum — truncation or modification goes unnoticed only on a
/// digest collision.
pub fn checksum_matches(data: &Vec<u8>, expected: &String) -> (r: bool)
    ensures
        r == spec_checksum_matches(data@, expected@),
        r ==> forall|other: Seq<u8>|
            spec_checksum_matches(other, expected@) ==> sha1_of(other) == sha1_of(data@),
{
    let digest: Vec<u8> = sha1_digest(data);
    let encoded: String = base64_encode(&digest);
    let r: bool = encoded == *expected;
    proof {
        if r {
            assert forall|other: Seq<u8>|
                spec_checksum_matches(other, expected@) implies sha1_of(other) == sha1_of(
                data@,
            ) by {
                assert(base64_of(sha1_of(other)) == encoded@);
            }
        }
    }
    r
}

} // verus!
