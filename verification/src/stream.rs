//! Sending and receiving wire messages.
//!
//! The connection itself is somebody else's: `WireMessages` turns messages
//! into frames for it, and says what to make of the frames that it gives.

use crate::bounds::{Contribution, NodeId};
use crate::error::Error;
use crate::frame::SignedWireMessage;
use crate::keys::{public_key_of, same_public_key};
use crate::wire::WireMessage;
use hbbft::crypto::{PublicKey, SecretKey};
use std::marker::PhantomData;
use vstd::prelude::*;

verus! {

/// Whether a value is there yet.
pub enum Poll<T> {
    /// The value.
    Ready(T),
    /// The value is not there yet.
    Pending,
}

/// Whether a frame is the one that a holder of `sk` makes of a serialized
/// message: it carries the message and the signature made with `sk`, which
/// matches under the public key that belongs to `sk`.
pub open spec fn is_sealed(frame: Seq<u8>, sk: SecretKey, message: Seq<u8>) -> bool {
    let sig = crate::keys::bls_signature(sk, message);
    &&& frame == crate::frame::frame_bytes(message, sig)
    &&& crate::frame::is_frame(frame)
    &&& sig.len() == crate::keys::SIGNATURE_SIZE
    &&& crate::keys::bls_verifies(crate::keys::bls_public_key(sk), sig, message)
}

/// What becomes of a deserialized message: one whose signature is checked needs
/// a known peer and a matching signature, any other is accepted as it is.
/// `verdict` says whether the signature matches under the peer's public key,
/// and is `None` if that key is not known.
pub open spec fn admission<C, N: Ord>(
    msg: WireMessage<C, N>,
    verdict: Option<bool>,
) -> Result<WireMessage<C, N>, Error> {
    if !msg@.is_checked() {
        Ok(msg)
    } else {
        match verdict {
            None => Err(Error::VerificationMessageReceivedUnknownPeer),
            Some(false) => Err(Error::InvalidSignature),
            Some(true) => Ok(msg),
        }
    }
}

/// Whether a signature matches a message under a peer's public key, if that is
/// known.
pub open spec fn verdict(
    peer_pk: Option<PublicKey>,
    message: Seq<u8>,
    signature: Seq<u8>,
) -> Option<bool> {
    match peer_pk {
        None => None,
        Some(pk) => Some(
            crate::keys::bls_verifies(crate::keys::public_key_bytes(pk), signature, message),
        ),
    }
}

/// Decides on a deserialized message, given whether its signature matches
/// under the peer's public key, or `None` if that key is not known.
pub fn decide<C: Contribution, N: NodeId>(msg: WireMessage<C, N>, verdict: Option<bool>) -> (result:
    Result<WireMessage<C, N>, Error>)
    ensures
        result == admission(msg, verdict),
{
    if !msg.kind().needs_verification() {
        return Ok(msg);
    }
    match verdict {
        None => Err(Error::VerificationMessageReceivedUnknownPeer),
        Some(false) => Err(Error::InvalidSignature),
        Some(true) => Ok(msg),
    }
}

/// What becomes of a signed message, given what its bytes deserialize to.
pub open spec fn reception<C, N: Ord>(
    peer_pk: Option<PublicKey>,
    message: Seq<u8>,
    signature: Seq<u8>,
    decoded: Result<WireMessage<C, N>, bincode::Error>,
) -> Result<WireMessage<C, N>, Error> {
    match decoded {
        Ok(msg) => admission(msg, verdict(peer_pk, message, signature)),
        Err(err) => Err(Error::Serde(err)),
    }
}

/// A stream/sink of `WireMessage`s.
#[verifier::reject_recursive_types(C)]
#[verifier::reject_recursive_types(N)]
pub struct WireMessages<C: Contribution, N: NodeId> {
    local_sk: SecretKey,
    peer_pk: Option<PublicKey>,
    _c: PhantomData<C>,
    _n: PhantomData<N>,
}

impl<C: Contribution, N: NodeId> WireMessages<C, N> {
    /// The key that outgoing messages are signed with.
    pub closed spec fn local_key(self) -> SecretKey {
        self.local_sk
    }

    /// The public key of the peer, once it is known.
    pub closed spec fn peer_key(self) -> Option<PublicKey> {
        self.peer_pk
    }

    /// Whether `pk` may be set as the peer's public key: none is known yet, or
    /// it is the one that is known.
    pub open spec fn accepts_peer_key(self, pk: PublicKey) -> bool {
        self.peer_key() matches Some(known) ==> crate::keys::public_key_bytes(known)
            == crate::keys::public_key_bytes(pk)
    }

    /// Returns a stream whose peer's public key is not known.
    pub fn new(local_sk: SecretKey) -> (messages: WireMessages<C, N>)
        ensures
            messages.local_key() == local_sk,
            messages.peer_key() is None,
    {
        WireMessages { local_sk, peer_pk: None, _c: PhantomData, _n: PhantomData }
    }

    /// Returns the public key that belongs to the local secret key: the one
    /// that a peer has to check this node's messages with.
    pub fn local_public_key(&self) -> (pk: PublicKey)
        ensures
            crate::keys::public_key_bytes(pk) == crate::keys::bls_public_key(self.local_key()),
    {
        public_key_of(&self.local_sk)
    }

    /// Sets the public key of the peer. Once it is known it cannot change.
    pub fn set_peer_public_key(&mut self, peer_pk: PublicKey)
        requires
            old(self).accepts_peer_key(peer_pk),
        ensures
            final(self).peer_key() == Some(peer_pk),
            final(self).local_key() == old(self).local_key(),
    {
        self.peer_pk = Some(peer_pk);
    }

    /// Sets the public key of the peer, unless another one is known: then it
    /// changes nothing, and returns `false`.
    pub fn try_set_peer_public_key(&mut self, peer_pk: PublicKey) -> (accepted: bool)
        ensures
            accepted == old(self).accepts_peer_key(peer_pk),
            accepted ==> final(self).peer_key() == Some(peer_pk),
            !accepted ==> final(self).peer_key() == old(self).peer_key(),
            final(self).local_key() == old(self).local_key(),
    {
        let accepted = match &self.peer_pk {
            Some(pk) => same_public_key(pk, &peer_pk),
            None => true,
        };
        if accepted {
            self.set_peer_public_key(peer_pk);
        }
        accepted
    }

    /// Signs a serialized message and frames it. This always succeeds.
    pub fn seal(&self, message: Vec<u8>) -> (result: Result<Vec<u8>, Error>)
        requires
            crate::frame::fits_in_frame(message@.len()),
        ensures
            result matches Ok(frame) && is_sealed(frame@, self.local_key(), message@) && frame@
                == crate::frame::frame_bytes(
                message@,
                crate::keys::bls_signature(self.local_key(), message@),
            ),
    {
        SignedWireMessage::sign(message, &self.local_sk).to_frame()
    }

    /// Whether `result` is what sending `msg` gives, where `encode` serializes
    /// it: the frame for the connection, or the error of `encode`.
    pub open spec fn sends<F: Fn(&WireMessage<C, N>) -> Result<Vec<u8>, bincode::Error>>(
        self,
        msg: WireMessage<C, N>,
        encode: F,
        result: Result<Vec<u8>, Error>,
    ) -> bool {
        exists|encoded: Result<Vec<u8>, bincode::Error>|
            #![trigger call_ensures(encode, (&msg,), encoded)]
            call_ensures(encode, (&msg,), encoded) && match encoded {
                Ok(message) => result matches Ok(frame) && is_sealed(
                    frame@,
                    self.local_key(),
                    message@,
                ),
                Err(err) => result == Err::<Vec<u8>, Error>(Error::Serde(err)),
            }
    }

    /// Serializes a message with `encode`, signs it and returns the frame to
    /// send.
    pub fn send_msg<F: Fn(&WireMessage<C, N>) -> Result<Vec<u8>, bincode::Error>>(
        &self,
        msg: WireMessage<C, N>,
        encode: F,
    ) -> (result: Result<Vec<u8>, Error>)
        requires
            call_requires(encode, (&msg,)),
            forall|message: Vec<u8>| #[trigger]
                call_ensures(encode, (&msg,), Ok(message)) ==> crate::frame::fits_in_frame(
                    message@.len(),
                ),
        ensures
            self.sends(msg, encode, result),
            result matches Ok(frame) ==> exists|message: Vec<u8>| #[trigger]
                call_ensures(encode, (&msg,), Ok(message)) && frame@ == crate::frame::frame_bytes(
                    message@,
                    crate::keys::bls_signature(self.local_key(), message@),
                ),
            result matches Err(err) ==> (err matches Error::Serde(err) && call_ensures(
                encode,
                (&msg,),
                Err(err),
            )),
    {
        match encode(&msg) {
            Ok(message) => self.seal(message),
            Err(err) => Err(Error::Serde(err)),
        }
    }

    /// Decides on a signed message, given what its bytes deserialize to.
    pub fn receive(
        &self,
        signed: &SignedWireMessage,
        decoded: Result<WireMessage<C, N>, bincode::Error>,
    ) -> (result: Result<WireMessage<C, N>, Error>)
        ensures
            result == reception(self.peer_key(), signed.message(), signed.signature(), decoded),
    {
        let msg = match decoded {
            Ok(msg) => msg,
            Err(err) => return Err(Error::Serde(err)),
        };
        let verdict = if msg.kind().needs_verification() {
            match &self.peer_pk {
                Some(pk) => Some(signed.verify(pk)),
                None => None,
            }
        } else {
            None
        };
        decide(msg, verdict)
    }

    /// Whether `result` is what receiving a frame gives, where `decode`
    /// deserializes the message that it carries.
    pub open spec fn receives<F: Fn(&[u8]) -> Result<WireMessage<C, N>, bincode::Error>>(
        self,
        frame: Seq<u8>,
        decode: F,
        result: Result<WireMessage<C, N>, Error>,
    ) -> bool {
        if !crate::frame::is_frame(frame) {
            result == Err::<WireMessage<C, N>, Error>(
                Error::Serde(crate::frame::frame_error(frame, usize::MAX as nat)),
            )
        } else {
            exists|bytes: &[u8], decoded: Result<WireMessage<C, N>, bincode::Error>|
                #![trigger call_ensures(decode, (bytes,), decoded)]
                bytes@ == crate::frame::frame_message(frame) && call_ensures(
                    decode,
                    (bytes,),
                    decoded,
                ) && result == reception(
                    self.peer_key(),
                    crate::frame::frame_message(frame),
                    crate::frame::frame_signature(frame),
                    decoded,
                )
        }
    }

    /// Decides on what the connection gives: an error or the end of the stream
    /// is passed on, a frame is opened, its message deserialized with `decode`
    /// and checked.
    pub fn poll_next<F: Fn(&[u8]) -> Result<WireMessage<C, N>, bincode::Error>>(
        &self,
        polled: Poll<Option<Result<Vec<u8>, std::io::Error>>>,
        decode: F,
    ) -> (result: Poll<Option<Result<WireMessage<C, N>, Error>>>)
        requires
            forall|bytes: &[u8]| call_requires(decode, (bytes,)),
        ensures
            match polled {
                Poll::Ready(Some(Ok(frame))) => result matches Poll::Ready(Some(received))
                    && self.receives(frame@, decode, received),
                Poll::Ready(Some(Err(err))) => result == Poll::Ready(
                    Some(Err::<WireMessage<C, N>, Error>(Error::Io(err))),
                ),
                Poll::Ready(None) => result == Poll::Ready(
                    None::<Result<WireMessage<C, N>, Error>>,
                ),
                Poll::Pending => result is Pending,
            },
    {
        match polled {
            Poll::Ready(Some(Ok(frame))) => {
                let s_msg = match SignedWireMessage::from_frame(frame.as_slice()) {
                    Ok(s_msg) => s_msg,
                    Err(err) => return Poll::Ready(Some(Err(err))),
                };
                let decoded = decode(s_msg.message_bytes());
                Poll::Ready(Some(self.receive(&s_msg, decoded)))
            },
            Poll::Ready(Some(Err(err))) => Poll::Ready(Some(Err(Error::from(err)))),
            Poll::Ready(None) => Poll::Ready(None),
            Poll::Pending => Poll::Pending,
        }
    }
}

} // verus!
