//! Signed messages and the frames that carry them.
//!
//! A frame holds the length of the serialized message as a little-endian
//! 64-bit number, then the message, then the representation of its signature.

use crate::error::Error;
use crate::keys::{sign, verify, SIGNATURE_SIZE};
use hbbft::crypto::{PublicKey, SecretKey, Signature};
use vstd::prelude::*;

verus! {

/// The number of bytes before the message.
pub const LENGTH_SIZE: usize = 8;

/// The frame of a message and its signature.
pub open spec fn frame_bytes(message: Seq<u8>, signature: Seq<u8>) -> Seq<u8> {
    vstd::bytes::spec_u64_to_le_bytes(message.len() as u64) + message + signature
}

/// The length of the message, as the frame declares it.
pub open spec fn declared_length(frame: Seq<u8>) -> nat {
    vstd::bytes::spec_u64_from_le_bytes(frame.take(LENGTH_SIZE as int)) as nat
}

/// The message that a frame carries.
pub open spec fn frame_message(frame: Seq<u8>) -> Seq<u8> {
    frame.subrange(LENGTH_SIZE as int, LENGTH_SIZE + declared_length(frame))
}

/// The signature that a frame carries.
pub open spec fn frame_signature(frame: Seq<u8>) -> Seq<u8> {
    frame.subrange(
        LENGTH_SIZE + declared_length(frame),
        LENGTH_SIZE + declared_length(frame) + SIGNATURE_SIZE,
    )
}

/// Whether the bytes hold a message of the declared length and a signature
/// after it. Bytes after the signature do not matter.
pub open spec fn holds_what_it_declares(frame: Seq<u8>) -> bool {
    &&& LENGTH_SIZE <= frame.len()
    &&& LENGTH_SIZE + declared_length(frame) + SIGNATURE_SIZE <= frame.len()
}

/// Whether the bytes are a frame: they hold what they declare, and the
/// signature among them is one.
pub open spec fn is_frame(frame: Seq<u8>) -> bool {
    &&& holds_what_it_declares(frame)
    &&& crate::keys::is_signature_encoding(frame_signature(frame))
}

/// A frame holds the message and the signature that it was made of.
pub(crate) proof fn lemma_frame_holds(message: Seq<u8>, signature: Seq<u8>)
    requires
        message.len() <= u64::MAX,
        frame_bytes(message, signature).len() == LENGTH_SIZE + message.len() + SIGNATURE_SIZE,
    ensures
        signature.len() == SIGNATURE_SIZE,
        holds_what_it_declares(frame_bytes(message, signature)),
        frame_message(frame_bytes(message, signature)) == message,
        frame_signature(frame_bytes(message, signature)) == signature,
{
    vstd::bytes::lemma_auto_spec_u64_to_from_le_bytes();
    let frame = frame_bytes(message, signature);
    assert(frame.take(LENGTH_SIZE as int) =~= vstd::bytes::spec_u64_to_le_bytes(
        message.len() as u64,
    ));
    assert(frame_message(frame) =~= message);
    assert(frame_signature(frame) =~= signature);
}

/// Whether the frame of a message of this length fits in a vector.
pub open spec fn fits_in_frame(length: nat) -> bool {
    LENGTH_SIZE + length + SIGNATURE_SIZE <= isize::MAX
}

/// Calls `bincode::serialize` on a message and its signature.
///
/// Claimed: it succeeds, and gives the length of the message as eight
/// little-endian bytes, the message, and the 96 bytes that represent the
/// signature.
#[verifier::external_body]
fn serialize_signed(message: &[u8], sig: &Signature) -> (result: Result<Vec<u8>, bincode::Error>)
    requires
        fits_in_frame(message@.len()),
    ensures
        result is Ok,
        result->Ok_0@ == frame_bytes(message@, crate::keys::signature_bytes(*sig)),
        result->Ok_0@.len() == LENGTH_SIZE + message@.len() + SIGNATURE_SIZE,
{
    bincode::serialize(&(message, sig))
}

/// The error that `bincode::deserialize` gives for a message and its signature
/// where the bytes are no frame. It depends on the bytes, and on the greatest
/// length that the machine has: a declared length above that is an error of its
/// own.
pub uninterp spec fn frame_error(frame: Seq<u8>, greatest_length: nat) -> bincode::Error;

/// Calls `bincode::deserialize` for a message and its signature.
///
/// Claimed: it succeeds exactly on frames, and gives the message and the
/// signature that the frame carries. On other bytes the error is the one named
/// `frame_error`.
#[verifier::external_body]
fn deserialize_signed(frame: &[u8]) -> (result: Result<(Vec<u8>, Signature), bincode::Error>)
    ensures
        (result is Ok) == (holds_what_it_declares(frame@)
            && crate::keys::is_signature_encoding(frame_signature(frame@))),
        result is Ok ==> result->Ok_0.0@ == frame_message(frame@),
        result is Ok ==> crate::keys::signature_bytes(result->Ok_0.1) == frame_signature(frame@),
        result is Err ==> result->Err_0 == frame_error(frame@, usize::MAX as nat),
{
    bincode::deserialize(frame)
}

/// Calls `std::io::Error::new` with the kind `Other`. Nothing is claimed of the
/// error that it gives.
#[verifier::external_body]
fn other_io_error(err: bincode::Error) -> (result: std::io::Error) {
    std::io::Error::new(std::io::ErrorKind::Other, err)
}

/// A serialized `WireMessage` signed by the sender.
#[derive(Debug)]
pub struct SignedWireMessage {
    message: Vec<u8>,
    sig: Signature,
}

impl Clone for SignedWireMessage {
    fn clone(&self) -> (result: Self)
        ensures
            result.message() == self.message(),
            result.signature() == self.signature(),
    {
        proof {
            use_type_invariant(self);
        }
        let message = self.message.clone();
        assert(message@ =~= self.message@);
        SignedWireMessage { message, sig: self.sig.clone() }
    }
}

impl SignedWireMessage {
    #[verifier::type_invariant]
    closed spec fn signature_can_be_read_back(self) -> bool {
        crate::keys::is_signature_encoding(crate::keys::signature_bytes(self.sig))
    }

    /// The serialized message.
    pub closed spec fn message(self) -> Seq<u8> {
        self.message@
    }

    /// The representation of the signature.
    pub closed spec fn signature(self) -> Seq<u8> {
        crate::keys::signature_bytes(self.sig)
    }

    /// Returns the serialized message.
    pub fn message_bytes(&self) -> (bytes: &[u8])
        ensures
            bytes@ == self.message(),
    {
        self.message.as_slice()
    }

    /// Signs a serialized message.
    pub fn sign(message: Vec<u8>, local_sk: &SecretKey) -> (signed: SignedWireMessage)
        ensures
            signed.message() == message@,
            signed.signature() == crate::keys::bls_signature(*local_sk, message@),
            crate::keys::bls_verifies(
                crate::keys::bls_public_key(*local_sk),
                signed.signature(),
                message@,
            ),
    {
        let sig = sign(local_sk, message.as_slice());
        SignedWireMessage { message, sig }
    }

    /// Whether the signature matches the message under a public key.
    pub fn verify(&self, pk: &PublicKey) -> (valid: bool)
        ensures
            valid == crate::keys::bls_verifies(
                crate::keys::public_key_bytes(*pk),
                self.signature(),
                self.message(),
            ),
    {
        verify(pk, &self.sig, self.message.as_slice())
    }

    /// Returns the frame of this message. Framing always succeeds.
    pub fn to_frame(&self) -> (result: Result<Vec<u8>, Error>)
        requires
            fits_in_frame(self.message().len()),
        ensures
            result matches Ok(frame) && {
                &&& frame@ == frame_bytes(self.message(), self.signature())
                &&& is_frame(frame@)
                &&& self.signature().len() == SIGNATURE_SIZE
            },
    {
        proof {
            use_type_invariant(self);
        }
        match serialize_signed(self.message.as_slice(), &self.sig) {
            Ok(frame) => {
                proof {
                    lemma_frame_holds(self.message(), self.signature());
                }
                Ok(frame)
            },
            Err(err) => Err(Error::Io(other_io_error(err))),
        }
    }

    /// Reads the signed message out of a frame.
    pub fn from_frame(frame: &[u8]) -> (result: Result<SignedWireMessage, Error>)
        ensures
            is_frame(frame@) ==> (result matches Ok(signed) && {
                &&& signed.message() == frame_message(frame@)
                &&& signed.signature() == frame_signature(frame@)
            }),
            !is_frame(frame@) ==> (result matches Err(Error::Serde(err)) && err == frame_error(
                frame@,
                usize::MAX as nat,
            )),
    {
        match deserialize_signed(frame) {
            Ok((message, sig)) => Ok(SignedWireMessage { message, sig }),
            Err(err) => Err(Error::Serde(err)),
        }
    }
}

} // verus!
