//! Trusted surface over the ed25519 signature backend: a streaming SHA-512
//! digest and the signature check itself. The updater feeds image bytes read
//! from flash into the digest block by block, so no whole image is ever held
//! in memory; only these items are taken on trust.

use vstd::prelude::*;

use ed25519_dalek::Digest;

verus! {

#[verifier::external_type_specification]
#[verifier::external_body]
pub struct ExSha512(ed25519_dalek::Sha512);

/// The byte stream a running digest has absorbed so far.
pub uninterp spec fn digest_fed(d: ed25519_dalek::Sha512) -> Seq<u8>;

/// The 64-byte SHA-512 digest of a byte stream: a function of the bytes
/// alone.
pub uninterp spec fn sha512_of(msg: Seq<u8>) -> Seq<u8>;

/// Whether ed25519 accepts `sig` as a signature over `msg` under the public
/// key `pk`: false whenever `pk` or `sig` is malformed, and a function of
/// the three byte strings alone.
pub uninterp spec fn ed25519_accepts(pk: Seq<u8>, sig: Seq<u8>, msg: Seq<u8>) -> bool;

/// Relies on ed25519_dalek::Sha512::new (sha2's Digest::new): a fresh digest
/// has absorbed nothing.
#[verifier::external_body]
pub(crate) fn digest_new() -> (r: ed25519_dalek::Sha512)
    ensures
        digest_fed(r) == Seq::<u8>::empty(),
{
    ed25519_dalek::Sha512::new()
}

/// Relies on ed25519_dalek::Sha512::update (sha2's Digest::update): absorbing
/// bytes appends them to the stream being hashed.
#[verifier::external_body]
pub(crate) fn digest_update(d: &mut ed25519_dalek::Sha512, data: &[u8])
    ensures
        digest_fed(*final(d)) == digest_fed(*old(d)) + data@,
{
    d.update(data);
}

/// Relies on ed25519_dalek::Sha512::finalize (sha2's Digest::finalize): the
/// result is the 64-byte SHA-512 digest of the absorbed stream.
#[verifier::external_body]
pub(crate) fn digest_finalize(d: ed25519_dalek::Sha512) -> (r: Vec<u8>)
    ensures
        r@ == sha512_of(digest_fed(d)),
        r@.len() == 64,
{
    d.finalize().to_vec()
}

/// Relies on ed25519_dalek::PublicKey::from_bytes, Signature::from_bytes and
/// Verifier::verify for PublicKey: whether the check succeeds is a
/// deterministic function of the three byte strings, and parsing rejects
/// malformed keys and signatures.
#[verifier::external_body]
pub(crate) fn ed25519_verify(public_key: &[u8], signature: &[u8], message: &[u8]) -> (r: bool)
    ensures
        r == ed25519_accepts(public_key@, signature@, message@),
{
    let pk = match ed25519_dalek::PublicKey::from_bytes(public_key) {
        Ok(k) => k,
        Err(_) => return false,
    };
    let sig = match ed25519_dalek::Signature::from_bytes(signature) {
        Ok(s) => s,
        Err(_) => return false,
    };
    ed25519_dalek::Verifier::verify(&pk, message, &sig).is_ok()
}

} // verus!
