//! Signing and checking with the keys of `hbbft::crypto`.
//!
//! What the cryptography computes is not written out here. Its results have
//! names, and the functions below tie the names to the calls.

use hbbft::crypto::{PublicKey, SecretKey, Signature};
use vstd::prelude::*;

verus! {

/// The size of a signature's representation in bytes.
pub const SIGNATURE_SIZE: usize = 96;

/// The representation of a public key: what `PublicKey::to_bytes` gives.
pub uninterp spec fn public_key_bytes(pk: PublicKey) -> Seq<u8>;

/// The representation of a signature: what `Signature::to_bytes` gives.
pub uninterp spec fn signature_bytes(sig: Signature) -> Seq<u8>;

/// Whether the bytes represent a signature: whether `Signature::from_bytes`
/// accepts them.
pub uninterp spec fn is_signature_encoding(bytes: Seq<u8>) -> bool;

/// The representation of the public key that belongs to a secret key: that of
/// the key which `SecretKey::public_key` gives.
pub uninterp spec fn bls_public_key(sk: SecretKey) -> Seq<u8>;

/// The representation of the signature of a message under a secret key: that
/// of the signature which `SecretKey::sign` gives.
pub uninterp spec fn bls_signature(sk: SecretKey, message: Seq<u8>) -> Seq<u8>;

/// Whether a signature matches a message under a public key, all three given
/// by their bytes: what `PublicKey::verify` gives.
pub uninterp spec fn bls_verifies(pk: Seq<u8>, sig: Seq<u8>, message: Seq<u8>) -> bool;

/// Calls `PublicKey`'s `==`.
///
/// Claimed: two keys are equal exactly when they have the same representation.
#[verifier::external_body]
pub(crate) fn same_public_key(a: &PublicKey, b: &PublicKey) -> (same: bool)
    ensures
        same == (public_key_bytes(*a) == public_key_bytes(*b)),
{
    a == b
}

/// Calls `SecretKey::public_key`.
///
/// Claimed: the key it gives has the representation named `bls_public_key`.
#[verifier::external_body]
pub(crate) fn public_key_of(sk: &SecretKey) -> (pk: PublicKey)
    ensures
        public_key_bytes(pk) == bls_public_key(*sk),
{
    sk.public_key()
}

/// Calls `SecretKey::sign`.
///
/// Claimed: the signature depends on the secret key and the message alone, it
/// matches the message under the public key that belongs to the secret key, and
/// its representation is one that can be read back.
#[verifier::external_body]
pub(crate) fn sign(sk: &SecretKey, message: &[u8]) -> (sig: Signature)
    ensures
        signature_bytes(sig) == bls_signature(*sk, message@),
        bls_verifies(bls_public_key(*sk), signature_bytes(sig), message@),
        is_signature_encoding(signature_bytes(sig)),
{
    sk.sign(message)
}

/// Calls `PublicKey::verify`.
///
/// Claimed: the answer depends on the representations of the key and the
/// signature and on the message alone.
#[verifier::external_body]
pub(crate) fn verify(pk: &PublicKey, sig: &Signature, message: &[u8]) -> (valid: bool)
    ensures
        valid == bls_verifies(public_key_bytes(*pk), signature_bytes(*sig), message@),
{
    pk.verify(sig, message)
}

} // verus!
