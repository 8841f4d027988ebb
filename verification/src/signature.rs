//! Signature verification: HMAC-SHA256 over the exact raw body bytes, hex
//! encoded and compared against the caller-supplied signature without an
//! early exit.

use vstd::prelude::*;

use crate::bytes::constant_time_eq;
use crate::hexcode::{hex_of, lemma_hex_of_injective, hex_encode_bytes};
use hmac::Mac;

verus! {

/// The HMAC-SHA256 digest of `msg` under the key `key`.  The digest is a
/// pure function of key and message alone; its value is stated nowhere, so
/// everything proved about verification holds whatever the algorithm
/// returns.
pub uninterp spec fn hmac_sha256_of(key: Seq<u8>, msg: Seq<u8>) -> Seq<u8>;

/// Relies on `hmac::Hmac<sha2::Sha256>` (through the `hmac::Mac` trait:
/// `new_from_slice`, `update`, `finalize`): the digest depends on key and
/// message alone, and SHA-256 digests are 32 bytes long.  `new_from_slice`
/// never fails for HMAC, which accepts keys of any length.
#[verifier::external_body]
fn compute_hmac_sha256(key: &Vec<u8>, msg: &Vec<u8>) -> (r: Vec<u8>)
    ensures
        r@ == hmac_sha256_of(key@, msg@),
        r@.len() == 32,
{
    let mut mac = hmac::Hmac::<sha2::Sha256>::new_from_slice(key.as_slice())
        .expect("HMAC accepts keys of any length");
    mac.update(msg.as_slice());
    mac.finalize().into_bytes().to_vec()
}

/// A supplied signature matches exactly when it equals the lowercase hex
/// encoding of the body's HMAC-SHA256 digest under the provider's secret.
pub open spec fn signature_matches(secret: Seq<u8>, body: Seq<u8>, signature: Seq<u8>) -> bool {
    signature == hex_of(hmac_sha256_of(secret, body))
}

/// Decides whether `signature` is the hex HMAC-SHA256 of `body` under
/// `secret`.  Malformed or wrongly sized signatures simply fail the
/// comparison; nothing here panics.  The comparison is constant-time in the
/// signature contents.
pub fn verify(secret: &Vec<u8>, body: &Vec<u8>, signature: &Vec<u8>) -> (r: bool)
    ensures
        r == signature_matches(secret@, body@, signature@),
{
    let digest = compute_hmac_sha256(secret, body);
    let expected = hex_encode_bytes(&digest);
    constant_time_eq(&expected, signature)
}

/// The only signature accepted for a body is the hex encoding of that
/// body's digest: the true signature always matches, and anything else
/// never does.
pub proof fn lemma_verify_accepts_exactly_the_true_signature(
    secret: Seq<u8>,
    body: Seq<u8>,
    signature: Seq<u8>,
)
    ensures
        signature_matches(secret, body, hex_of(hmac_sha256_of(secret, body))),
        signature != hex_of(hmac_sha256_of(secret, body)) ==> !signature_matches(
            secret,
            body,
            signature,
        ),
{
}

/// Verification is byte-exact: a reprinted body is accepted under the
/// original body's signature only if the two bodies have the same digest.
/// Hex encoding is injective, so no encoding artefact can mask a changed
/// digest.
pub proof fn lemma_verification_is_byte_exact(secret: Seq<u8>, original: Seq<u8>, reprinted: Seq<u8>)
    ensures
        signature_matches(secret, reprinted, hex_of(hmac_sha256_of(secret, original)))
            ==> hmac_sha256_of(secret, reprinted) == hmac_sha256_of(secret, original),
{
    if signature_matches(secret, reprinted, hex_of(hmac_sha256_of(secret, original))) {
        lemma_hex_of_injective(
            hmac_sha256_of(secret, reprinted),
            hmac_sha256_of(secret, original),
        );
    }
}

} // verus!
