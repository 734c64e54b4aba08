//! What holds of the library as a whole.

use crate::bounds::{Contribution, NodeId};
use crate::draw::Position;
use crate::error::Error;
use crate::internal::InternalMessage;
use crate::network::NetworkNodeInfo;
use crate::stream::WireMessages;
use crate::transaction::Transaction;
use crate::uid::Uid;
use crate::wire::{WireMessage, WireMessageKind};
use hbbft::crypto::{PublicKey, SecretKey};
use vstd::prelude::*;

verus! {

/// A frame gives back the message and the signature that it was made of.
pub proof fn frame_gives_back(message: Seq<u8>, signature: Seq<u8>)
    requires
        message.len() <= u64::MAX,
        signature.len() == crate::keys::SIGNATURE_SIZE,
    ensures
        crate::frame::holds_what_it_declares(crate::frame::frame_bytes(message, signature)),
        crate::frame::frame_message(crate::frame::frame_bytes(message, signature)) == message,
        crate::frame::frame_signature(crate::frame::frame_bytes(message, signature)) == signature,
        crate::frame::is_frame(crate::frame::frame_bytes(message, signature))
            <==> crate::keys::is_signature_encoding(signature),
{
    vstd::bytes::lemma_auto_spec_u64_to_from_le_bytes();
    crate::frame::lemma_frame_holds(message, signature);
}

/// A frame is the eight bytes of the message's length, then the bytes of the
/// message, then the 96 bytes of the signature, and nothing more.
pub proof fn frame_is_laid_out(message: Seq<u8>, signature: Seq<u8>)
    requires
        message.len() <= u64::MAX,
        signature.len() == 96,
    ensures
        crate::frame::frame_bytes(message, signature).len() == 8 + message.len() + 96,
        vstd::bytes::spec_u64_from_le_bytes(
            crate::frame::frame_bytes(message, signature).take(8),
        ) == message.len(),
        forall|i: int|
            0 <= i < message.len() ==> #[trigger] crate::frame::frame_bytes(message, signature)[8
                + i] == message[i],
        forall|i: int|
            0 <= i < 96 ==> #[trigger] crate::frame::frame_bytes(message, signature)[8
                + message.len() + i] == signature[i],
{
    vstd::bytes::lemma_auto_spec_u64_to_from_le_bytes();
    let frame = crate::frame::frame_bytes(message, signature);
    assert(frame.take(8) =~= vstd::bytes::spec_u64_to_le_bytes(message.len() as u64));
}

/// Bytes are a frame exactly when they hold as many bytes as they declare, and
/// 96 more that represent a signature.
pub proof fn frame_holds_a_message_and_a_signature(frame: Seq<u8>)
    ensures
        crate::frame::is_frame(frame) <==> {
            let length = vstd::bytes::spec_u64_from_le_bytes(frame.take(8)) as int;
            &&& 8 <= frame.len()
            &&& 8 + length + 96 <= frame.len()
            &&& crate::keys::is_signature_encoding(frame.subrange(8 + length, 8 + length + 96))
        },
        crate::frame::is_frame(frame) ==> crate::frame::frame_message(frame) == frame.subrange(
            8,
            8 + vstd::bytes::spec_u64_from_le_bytes(frame.take(8)) as int,
        ),
{
}

/// A message can be framed whenever a vector can hold its frame.
pub proof fn message_of_any_length_can_be_framed(length: nat)
    ensures
        crate::frame::fits_in_frame(length) <==> 8 + length + 96 <= isize::MAX,
{
}

/// Two signed messages with the same frame are the same.
pub proof fn frames_are_unambiguous(
    message1: Seq<u8>,
    signature1: Seq<u8>,
    message2: Seq<u8>,
    signature2: Seq<u8>,
)
    requires
        message1.len() <= u64::MAX,
        message2.len() <= u64::MAX,
        signature1.len() == crate::keys::SIGNATURE_SIZE,
        signature2.len() == crate::keys::SIGNATURE_SIZE,
        crate::frame::frame_bytes(message1, signature1) == crate::frame::frame_bytes(
            message2,
            signature2,
        ),
    ensures
        message1 == message2,
        signature1 == signature2,
{
    frame_gives_back(message1, signature1);
    frame_gives_back(message2, signature2);
}

/// Bytes after the signature change nothing: what holds a frame is still the
/// same frame with more bytes behind it.
pub proof fn frame_ignores_what_follows(frame: Seq<u8>, rest: Seq<u8>)
    requires
        crate::frame::holds_what_it_declares(frame),
    ensures
        crate::frame::holds_what_it_declares(frame + rest),
        crate::frame::frame_message(frame + rest) == crate::frame::frame_message(frame),
        crate::frame::frame_signature(frame + rest) == crate::frame::frame_signature(frame),
        crate::frame::is_frame(frame + rest) == crate::frame::is_frame(frame),
{
    assert((frame + rest).take(8) =~= frame.take(8));
    assert(crate::frame::frame_message(frame + rest) =~= crate::frame::frame_message(frame));
    assert(crate::frame::frame_signature(frame + rest) =~= crate::frame::frame_signature(frame));
}

/// The frame that a node makes of a serialized message carries that message,
/// and a peer that knows the node's public key accepts it, whatever its kind.
pub proof fn sealed_message_is_admitted<C: Contribution, N: NodeId>(
    frame: Seq<u8>,
    sk: SecretKey,
    message: Seq<u8>,
    peer_pk: PublicKey,
    msg: WireMessage<C, N>,
)
    requires
        message.len() <= u64::MAX,
        crate::stream::is_sealed(frame, sk, message),
        crate::keys::public_key_bytes(peer_pk) == crate::keys::bls_public_key(sk),
    ensures
        crate::frame::frame_message(frame) == message,
        crate::stream::reception(
            Some(peer_pk),
            crate::frame::frame_message(frame),
            crate::frame::frame_signature(frame),
            Ok(msg),
        ) == Ok::<WireMessage<C, N>, Error>(msg),
{
    frame_gives_back(message, crate::keys::bls_signature(sk, message));
}

/// Whether `decode` reads `msg` back out of whatever `encode` writes for it.
pub open spec fn reads_back<C, N: Ord, E, D>(msg: WireMessage<C, N>, encode: E, decode: D) -> bool
    where
        E: Fn(&WireMessage<C, N>) -> Result<Vec<u8>, bincode::Error>,
        D: Fn(&[u8]) -> Result<WireMessage<C, N>, bincode::Error>,
{
    forall|message: Vec<u8>, bytes: &[u8], decoded: Result<WireMessage<C, N>, bincode::Error>|
        #![trigger call_ensures(encode, (&msg,), Ok(message)), call_ensures(decode, (bytes,), decoded)]
        call_ensures(encode, (&msg,), Ok(message)) && bytes@ == message@ && call_ensures(
            decode,
            (bytes,),
            decoded,
        ) ==> decoded == Ok::<WireMessage<C, N>, bincode::Error>(msg)
}

/// What one node sends, another receives: where `decode` reads back what
/// `encode` writes, the message that was sent is the one that is received. The
/// receiver has to know the sender's public key only if the message is of a
/// kind whose signature is checked.
pub proof fn sent_message_is_received<C: Contribution, N: NodeId, E, D>(
    sender: WireMessages<C, N>,
    receiver: WireMessages<C, N>,
    msg: WireMessage<C, N>,
    encode: E,
    decode: D,
    frame: Vec<u8>,
    result: Result<WireMessage<C, N>, Error>,
) where
    E: Fn(&WireMessage<C, N>) -> Result<Vec<u8>, bincode::Error>,
    D: Fn(&[u8]) -> Result<WireMessage<C, N>, bincode::Error>,

    requires
        sender.sends(msg, encode, Ok(frame)),
        receiver.receives(frame@, decode, result),
        reads_back(msg, encode, decode),
        msg@ is Message || msg@ is KeyGen ==> (receiver.peer_key() matches Some(pk)
            && crate::keys::public_key_bytes(pk) == crate::keys::bls_public_key(
            sender.local_key(),
        )),
    ensures
        result == Ok::<WireMessage<C, N>, Error>(msg),
{
    let encoded = choose|encoded: Result<Vec<u8>, bincode::Error>|
        #![trigger call_ensures(encode, (&msg,), encoded)]
        call_ensures(encode, (&msg,), encoded) && match encoded {
            Ok(message) => crate::stream::is_sealed(frame@, sender.local_key(), message@),
            Err(err) => false,
        };
    let message = encoded->Ok_0;
    assert(encoded == Ok::<Vec<u8>, bincode::Error>(message));
    assert(message@.len() == message.len());
    frame_gives_back(message@, crate::keys::bls_signature(sender.local_key(), message@));
}

/// Whether decoding a frame and its message can fail with `err`: the bytes are
/// no frame, and that is their error, or `decode` fails on the message with it.
pub open spec fn fails_to_decode<C, N: Ord, D>(
    frame: Seq<u8>,
    decode: D,
    err: bincode::Error,
) -> bool where D: Fn(&[u8]) -> Result<WireMessage<C, N>, bincode::Error> {
    if crate::frame::is_frame(frame) {
        exists|bytes: &[u8]|
            bytes@ == crate::frame::frame_message(frame) && #[trigger] call_ensures(
                decode,
                (bytes,),
                Err::<WireMessage<C, N>, bincode::Error>(err),
            )
    } else {
        err == crate::frame::frame_error(frame, usize::MAX as nat)
    }
}

/// A serialization error is one that decoding the frame or its message gave.
pub proof fn serialization_error_is_from_decoding<C: Contribution, N: NodeId, D>(
    receiver: WireMessages<C, N>,
    frame: Seq<u8>,
    decode: D,
    err: bincode::Error,
) where D: Fn(&[u8]) -> Result<WireMessage<C, N>, bincode::Error>
    requires
        receiver.receives(frame, decode, Err(Error::Serde(err))),
    ensures
        fails_to_decode::<C, N, D>(frame, decode, err),
{
    if crate::frame::is_frame(frame) {
        let (bytes, decoded) = choose|
            bytes: &[u8],
            decoded: Result<WireMessage<C, N>, bincode::Error>,
        |
            #![trigger call_ensures(decode, (bytes,), decoded)]
            bytes@ == crate::frame::frame_message(frame) && call_ensures(
                decode,
                (bytes,),
                decoded,
            ) && Err::<WireMessage<C, N>, Error>(Error::Serde(err)) == crate::stream::reception(
                receiver.peer_key(),
                crate::frame::frame_message(frame),
                crate::frame::frame_signature(frame),
                decoded,
            );
        assert(decoded == Err::<WireMessage<C, N>, bincode::Error>(err));
    }
}

/// Bytes that are no frame are refused with their error, whatever `decode`
/// does and whether or not the peer is known.
pub proof fn damaged_frame_is_refused<C: Contribution, N: NodeId, D>(
    receiver: WireMessages<C, N>,
    frame: Seq<u8>,
    decode: D,
    result: Result<WireMessage<C, N>, Error>,
) where D: Fn(&[u8]) -> Result<WireMessage<C, N>, bincode::Error>
    requires
        receiver.receives(frame, decode, result),
        !crate::frame::is_frame(frame),
    ensures
        result == Err::<WireMessage<C, N>, Error>(
            Error::Serde(crate::frame::frame_error(frame, usize::MAX as nat)),
        ),
{
}

/// A message that does not decode is refused for that reason, whether or not
/// the peer is known and whatever the signature is.
pub proof fn undecodable_message_is_refused<C: Contribution, N: NodeId>(
    peer_pk: Option<PublicKey>,
    message: Seq<u8>,
    signature: Seq<u8>,
    err: bincode::Error,
)
    ensures
        crate::stream::reception::<C, N>(peer_pk, message, signature, Err(err)) == Err::<
            WireMessage<C, N>,
            Error,
        >(Error::Serde(err)),
{
}

/// A message of a checked kind is accepted only from a peer whose public key
/// is known, and only with a signature that matches the message under it.
pub proof fn accepted_message_is_verified<C: Contribution, N: NodeId, D>(
    receiver: WireMessages<C, N>,
    frame: Seq<u8>,
    decode: D,
    msg: WireMessage<C, N>,
) where D: Fn(&[u8]) -> Result<WireMessage<C, N>, bincode::Error>
    requires
        receiver.receives(frame, decode, Ok(msg)),
        msg@ is Message || msg@ is KeyGen,
    ensures
        crate::frame::is_frame(frame),
        receiver.peer_key() matches Some(pk) && crate::keys::bls_verifies(
            crate::keys::public_key_bytes(pk),
            crate::frame::frame_signature(frame),
            crate::frame::frame_message(frame),
        ),
{
}

/// The signature is checked of consensus messages and of key generation
/// messages, and of no others.
pub proof fn only_consensus_and_key_generation_are_checked<C, N: Ord>(kind: WireMessageKind<C, N>)
    ensures
        match kind {
            WireMessageKind::HelloFromValidator(..) => !kind.is_checked(),
            WireMessageKind::HelloRequestChangeAdd(..) => !kind.is_checked(),
            WireMessageKind::WelcomeReceivedChangeAdd(..) => !kind.is_checked(),
            WireMessageKind::RequestNetworkState => !kind.is_checked(),
            WireMessageKind::NetworkState(..) => !kind.is_checked(),
            WireMessageKind::Goodbye => !kind.is_checked(),
            WireMessageKind::Bytes(..) => !kind.is_checked(),
            WireMessageKind::Message(..) => kind.is_checked(),
            WireMessageKind::Transaction(..) => !kind.is_checked(),
            WireMessageKind::KeyGen(..) => kind.is_checked(),
            WireMessageKind::JoinPlan(..) => !kind.is_checked(),
        },
{
}

/// A message that is neither of consensus nor of key generation is accepted
/// whatever its signature is and whether or not the peer is known.
pub proof fn unchecked_message_is_admitted<C: Contribution, N: NodeId>(
    peer_pk: Option<PublicKey>,
    message: Seq<u8>,
    signature: Seq<u8>,
    msg: WireMessage<C, N>,
    verdict: Option<bool>,
)
    requires
        !(msg@ is Message),
        !(msg@ is KeyGen),
    ensures
        crate::stream::reception(peer_pk, message, signature, Ok(msg)) == Ok::<
            WireMessage<C, N>,
            Error,
        >(msg),
        crate::stream::admission(msg, verdict) == Ok::<WireMessage<C, N>, Error>(msg),
{
}

/// A message of consensus or of key generation from a peer whose public key is
/// not known is refused for that reason, even if its signature is worthless.
pub proof fn unknown_peer_is_refused<C: Contribution, N: NodeId>(
    message: Seq<u8>,
    signature: Seq<u8>,
    msg: WireMessage<C, N>,
)
    requires
        msg@ is Message || msg@ is KeyGen,
    ensures
        crate::stream::reception(None, message, signature, Ok(msg)) == Err::<
            WireMessage<C, N>,
            Error,
        >(Error::VerificationMessageReceivedUnknownPeer),
        crate::stream::admission(msg, None) == Err::<WireMessage<C, N>, Error>(
            Error::VerificationMessageReceivedUnknownPeer,
        ),
{
}

/// A message of consensus or of key generation whose signature does not match
/// under the peer's public key is refused for that reason.
pub proof fn mismatched_signature_is_refused<C: Contribution, N: NodeId>(
    peer_pk: PublicKey,
    message: Seq<u8>,
    signature: Seq<u8>,
    msg: WireMessage<C, N>,
)
    requires
        msg@ is Message || msg@ is KeyGen,
        !crate::keys::bls_verifies(crate::keys::public_key_bytes(peer_pk), signature, message),
    ensures
        crate::stream::reception(Some(peer_pk), message, signature, Ok(msg)) == Err::<
            WireMessage<C, N>,
            Error,
        >(Error::InvalidSignature),
        crate::stream::admission(msg, Some(false)) == Err::<WireMessage<C, N>, Error>(
            Error::InvalidSignature,
        ),
{
}

/// A message of any kind whose signature matches under the peer's public key is
/// accepted.
pub proof fn matching_signature_is_admitted<C: Contribution, N: NodeId>(
    peer_pk: PublicKey,
    message: Seq<u8>,
    signature: Seq<u8>,
    msg: WireMessage<C, N>,
)
    requires
        crate::keys::bls_verifies(crate::keys::public_key_bytes(peer_pk), signature, message),
    ensures
        crate::stream::reception(Some(peer_pk), message, signature, Ok(msg)) == Ok::<
            WireMessage<C, N>,
            Error,
        >(msg),
        crate::stream::admission(msg, Some(true)) == Ok::<WireMessage<C, N>, Error>(msg),
{
}

/// What is delivered is what `decode` gave for the message in the frame:
/// nothing else is ever delivered.
pub proof fn delivered_message_is_the_decoded_one<C: Contribution, N: NodeId, D>(
    receiver: WireMessages<C, N>,
    frame: Seq<u8>,
    decode: D,
    msg: WireMessage<C, N>,
) -> (bytes: &'static [u8]) where D: Fn(&[u8]) -> Result<WireMessage<C, N>, bincode::Error>
    requires
        receiver.receives(frame, decode, Ok(msg)),
    ensures
        crate::frame::is_frame(frame),
        bytes@ == crate::frame::frame_message(frame),
        call_ensures(decode, (bytes,), Ok(msg)),
{
    let (bytes, decoded) = choose|
        bytes: &[u8],
        decoded: Result<WireMessage<C, N>, bincode::Error>,
    |
        #![trigger call_ensures(decode, (bytes,), decoded)]
        bytes@ == crate::frame::frame_message(frame) && call_ensures(decode, (bytes,), decoded)
            && Ok::<WireMessage<C, N>, Error>(msg) == crate::stream::reception(
            receiver.peer_key(),
            crate::frame::frame_message(frame),
            crate::frame::frame_signature(frame),
            decoded,
        );
    assert(decoded == Ok::<WireMessage<C, N>, bincode::Error>(msg));
    bytes
}

/// Whether the message in a frame decodes to this and to nothing else.
pub open spec fn decodes_only_to<C, N: Ord, D>(
    frame: Seq<u8>,
    decode: D,
    decoded: Result<WireMessage<C, N>, bincode::Error>,
) -> bool where D: Fn(&[u8]) -> Result<WireMessage<C, N>, bincode::Error> {
    forall|bytes: &[u8], other: Result<WireMessage<C, N>, bincode::Error>|
        #![trigger call_ensures(decode, (bytes,), other)]
        bytes@ == crate::frame::frame_message(frame) && call_ensures(decode, (bytes,), other)
            ==> other == decoded
}

/// Receiving a message that is neither of consensus nor of key generation
/// delivers it, whether or not the peer is known.
pub proof fn unchecked_message_is_delivered<C: Contribution, N: NodeId, D>(
    receiver: WireMessages<C, N>,
    frame: Seq<u8>,
    decode: D,
    msg: WireMessage<C, N>,
    result: Result<WireMessage<C, N>, Error>,
) where D: Fn(&[u8]) -> Result<WireMessage<C, N>, bincode::Error>
    requires
        receiver.receives(frame, decode, result),
        crate::frame::is_frame(frame),
        decodes_only_to(frame, decode, Ok(msg)),
        !(msg@ is Message),
        !(msg@ is KeyGen),
    ensures
        result == Ok::<WireMessage<C, N>, Error>(msg),
{
}

/// Receiving a message of consensus or of key generation from a peer whose
/// public key is not known reports just that.
pub proof fn unknown_peer_is_reported<C: Contribution, N: NodeId, D>(
    receiver: WireMessages<C, N>,
    frame: Seq<u8>,
    decode: D,
    msg: WireMessage<C, N>,
    result: Result<WireMessage<C, N>, Error>,
) where D: Fn(&[u8]) -> Result<WireMessage<C, N>, bincode::Error>
    requires
        receiver.receives(frame, decode, result),
        crate::frame::is_frame(frame),
        decodes_only_to(frame, decode, Ok(msg)),
        msg@ is Message || msg@ is KeyGen,
        receiver.peer_key() is None,
    ensures
        result == Err::<WireMessage<C, N>, Error>(Error::VerificationMessageReceivedUnknownPeer),
{
}

/// Receiving a message of consensus or of key generation from a known peer
/// delivers it if its signature matches under the peer's public key, and
/// reports an invalid signature if not.
pub proof fn signature_decides<C: Contribution, N: NodeId, D>(
    receiver: WireMessages<C, N>,
    frame: Seq<u8>,
    decode: D,
    msg: WireMessage<C, N>,
    peer_pk: PublicKey,
    result: Result<WireMessage<C, N>, Error>,
) where D: Fn(&[u8]) -> Result<WireMessage<C, N>, bincode::Error>
    requires
        receiver.receives(frame, decode, result),
        crate::frame::is_frame(frame),
        decodes_only_to(frame, decode, Ok(msg)),
        msg@ is Message || msg@ is KeyGen,
        receiver.peer_key() == Some(peer_pk),
    ensures
        crate::keys::bls_verifies(
            crate::keys::public_key_bytes(peer_pk),
            crate::frame::frame_signature(frame),
            crate::frame::frame_message(frame),
        ) ==> result == Ok::<WireMessage<C, N>, Error>(msg),
        !crate::keys::bls_verifies(
            crate::keys::public_key_bytes(peer_pk),
            crate::frame::frame_signature(frame),
            crate::frame::frame_message(frame),
        ) ==> result == Err::<WireMessage<C, N>, Error>(Error::InvalidSignature),
{
}

/// Receiving a message that does not decode reports the error of decoding it.
pub proof fn undecodable_message_is_reported<C: Contribution, N: NodeId, D>(
    receiver: WireMessages<C, N>,
    frame: Seq<u8>,
    decode: D,
    err: bincode::Error,
    result: Result<WireMessage<C, N>, Error>,
) where D: Fn(&[u8]) -> Result<WireMessage<C, N>, bincode::Error>
    requires
        receiver.receives(frame, decode, result),
        crate::frame::is_frame(frame),
        decodes_only_to(frame, decode, Err::<WireMessage<C, N>, bincode::Error>(err)),
    ensures
        result == Err::<WireMessage<C, N>, Error>(Error::Serde(err)),
{
}

/// A message of any kind that encodes is sent: the frame carries what `encode`
/// gave for it, signed with the sender's key.
pub proof fn encoded_message_is_sent<C: Contribution, N: NodeId, E>(
    sender: WireMessages<C, N>,
    msg: WireMessage<C, N>,
    encode: E,
    result: Result<Vec<u8>, Error>,
) -> (message: Vec<u8>) where E: Fn(&WireMessage<C, N>) -> Result<Vec<u8>, bincode::Error>
    requires
        sender.sends(msg, encode, result),
        forall|encoded: Result<Vec<u8>, bincode::Error>| #[trigger]
            call_ensures(encode, (&msg,), encoded) ==> encoded is Ok,
    ensures
        call_ensures(encode, (&msg,), Ok(message)),
        result matches Ok(frame) && {
            &&& frame@ == crate::frame::frame_bytes(
                message@,
                crate::keys::bls_signature(sender.local_key(), message@),
            )
            &&& crate::frame::is_frame(frame@)
            &&& crate::frame::frame_message(frame@) == message@
            &&& crate::frame::frame_signature(frame@) == crate::keys::bls_signature(
                sender.local_key(),
                message@,
            )
        },
{
    let encoded = choose|encoded: Result<Vec<u8>, bincode::Error>|
        #![trigger call_ensures(encode, (&msg,), encoded)]
        call_ensures(encode, (&msg,), encoded) && match encoded {
            Ok(message) => result matches Ok(frame) && crate::stream::is_sealed(
                frame@,
                sender.local_key(),
                message@,
            ),
            Err(err) => false,
        };
    let message = encoded->Ok_0;
    assert(encoded == Ok::<Vec<u8>, bincode::Error>(message));
    assert(message@.len() == message.len());
    frame_gives_back(message@, crate::keys::bls_signature(sender.local_key(), message@));
    message
}

/// Sending fails only with an error that `encode` gave for the message.
pub proof fn sending_fails_only_in_encoding<C: Contribution, N: NodeId, E>(
    sender: WireMessages<C, N>,
    msg: WireMessage<C, N>,
    encode: E,
    err: Error,
) where E: Fn(&WireMessage<C, N>) -> Result<Vec<u8>, bincode::Error>
    requires
        sender.sends(msg, encode, Err(err)),
    ensures
        err matches Error::Serde(err) && call_ensures(encode, (&msg,), Err(err)),
{
}

/// A public key is accepted as the peer's if none is known yet or if it is the
/// one that is known, and only then.
pub proof fn peer_key_is_accepted_unless_another_is_known<C: Contribution, N: NodeId>(
    messages: WireMessages<C, N>,
    pk: PublicKey,
)
    ensures
        messages.peer_key() is None ==> messages.accepts_peer_key(pk),
        messages.peer_key() matches Some(known) ==> (messages.accepts_peer_key(pk)
            <==> crate::keys::public_key_bytes(known) == crate::keys::public_key_bytes(pk)),
{
}

/// What an attempt to set the peer's public key makes of a stream.
pub open spec fn peer_key_attempt<C: Contribution, N: NodeId>(
    before: WireMessages<C, N>,
    pk: PublicKey,
    after: WireMessages<C, N>,
) -> bool {
    if before.accepts_peer_key(pk) {
        after.peer_key() == Some(pk)
    } else {
        after.peer_key() == before.peer_key()
    }
}

/// Once the peer's public key is known it stays the same, however often and
/// with whatever keys one tries to set it.
pub proof fn peer_key_never_changes<C: Contribution, N: NodeId>(
    states: Seq<WireMessages<C, N>>,
    keys: Seq<PublicKey>,
    pk: PublicKey,
)
    requires
        states.len() == keys.len() + 1,
        forall|i: int|
            0 <= i < keys.len() ==> peer_key_attempt(states[i], #[trigger] keys[i], states[i + 1]),
        states[0].peer_key() == Some(pk),
    ensures
        states.last().peer_key() matches Some(last) && crate::keys::public_key_bytes(last)
            == crate::keys::public_key_bytes(pk),
    decreases keys.len(),
{
    if keys.len() > 0 {
        let n = keys.len() - 1;
        assert forall|i: int| 0 <= i < keys.drop_last().len() implies peer_key_attempt(
            states.drop_last()[i],
            #[trigger] keys.drop_last()[i],
            states.drop_last()[i + 1],
        ) by {
            assert(keys.drop_last()[i] == keys[i]);
        }
        peer_key_never_changes(states.drop_last(), keys.drop_last(), pk);
        assert(states.drop_last().last() == states[n]);
        assert(peer_key_attempt(states[n], keys[n], states[n + 1]));
    }
}

/// A transaction that is collected from a source holds what the source gives,
/// from the first draw on, in order and unaltered.
pub proof fn transaction_holds_the_first_draws<F: Fn(usize) -> u8>(
    txn: Transaction,
    len: usize,
    sample: F,
    given: Seq<u8>,
)
    requires
        crate::transaction::are_draws(txn.0@, len, sample),
        len <= given.len(),
        forall|i: usize, byte: u8|
            i < len && #[trigger] call_ensures(sample, (i,), byte) ==> byte == given[i as int],
    ensures
        txn.0@ == given.take(len as int),
{
    assert forall|i: int| 0 <= i < len implies #[trigger] txn.0@[i] == given[i] by {
        let draw = i as usize;
        assert(call_ensures(sample, (draw,), txn.0@[draw as int]));
    }
    assert(txn.0@ =~= given.take(len as int));
}

/// A clone of a list of nodes has the same nodes in the same order.
pub proof fn cloned_nodes_are_the_same<N: Clone>(
    a: Seq<NetworkNodeInfo<N>>,
    b: Seq<NetworkNodeInfo<N>>,
)
    requires
        crate::network::nodes_cloned(a, b),
    ensures
        a.len() == b.len(),
        forall|i: int|
            #![trigger a[i]]
            #![trigger b[i]]
            0 <= i < a.len() ==> {
                &&& a[i].nid == b[i].nid || cloned(a[i].nid, b[i].nid)
                &&& a[i].in_addr == b[i].in_addr
                &&& crate::keys::public_key_bytes(a[i].pk) == crate::keys::public_key_bytes(b[i].pk)
            },
{
    assert forall|i: int|
        #![trigger a[i]]
        0 <= i < a.len() implies cloned(a[i], b[i]) by {}
}

/// Draws that follow other draws make one run with them: what was drawn after
/// them is what was drawn before, followed by them.
pub proof fn runs_follow_one_another<T, F: Fn(Position) -> (T, Position)>(
    source: F,
    from: Position,
    before: Seq<T>,
    at: Position,
    draws: Seq<T>,
    to: Position,
)
    requires
        crate::draw::is_run(source, from, before, at),
        crate::draw::is_run(source, at, draws, to),
    ensures
        crate::draw::is_run(source, from, before + draws, to),
{
    let p = choose|points: Seq<Position>| #[trigger]
        crate::draw::are_points(source, points, before) && points.first() == from && points.last()
            == at;
    let q = choose|points: Seq<Position>| #[trigger]
        crate::draw::are_points(source, points, draws) && points.first() == at && points.last()
            == to;
    let points = p + q.drop_first();
    assert forall|i: int| 0 <= i < (before + draws).len() implies call_ensures(
        source,
        (points[i],),
        (#[trigger] (before + draws)[i], points[i + 1]),
    ) by {
        if i < before.len() {
            assert((before + draws)[i] == before[i]);
        } else {
            assert((before + draws)[i] == draws[i - before.len()]);
        }
    }
    assert(crate::draw::are_points(source, points, before + draws));
}

/// The point that is reached after a number of steps.
pub open spec fn after_steps(
    step: spec_fn(Position) -> Position,
    from: Position,
    steps: nat,
) -> Position
    decreases steps,
{
    if steps == 0 {
        from
    } else {
        step(after_steps(step, from, (steps - 1) as nat))
    }
}

/// A run is what the source gives from its first point on, draw by draw, with
/// none left out, none repeated and none altered, and it ends right behind the
/// last of them.
pub proof fn run_is_what_the_source_gives<T, F: Fn(Position) -> (T, Position)>(
    source: F,
    from: Position,
    draws: Seq<T>,
    to: Position,
    value: spec_fn(Position) -> T,
    step: spec_fn(Position) -> Position,
)
    requires
        crate::draw::is_run(source, from, draws, to),
        forall|at: Position, drawn: T, next: Position| #[trigger]
            call_ensures(source, (at,), (drawn, next)) ==> drawn == value(at) && next == step(at),
    ensures
        forall|i: int|
            #![trigger draws[i]]
            0 <= i < draws.len() ==> draws[i] == value(after_steps(step, from, i as nat)),
        to == after_steps(step, from, draws.len()),
{
    let points = choose|points: Seq<Position>| #[trigger]
        crate::draw::are_points(source, points, draws) && points.first() == from && points.last()
            == to;
    assert forall|i: int| 0 <= i <= draws.len() implies #[trigger] points[i] == after_steps(
        step,
        from,
        i as nat,
    ) by {
        lemma_points(source, points, draws, value, step, i as nat);
    }
    assert forall|i: int|
        #![trigger draws[i]]
        0 <= i < draws.len() implies draws[i] == value(after_steps(step, from, i as nat)) by {
        assert(points[i] == after_steps(step, from, i as nat));
    }
    assert(points[draws.len() as int] == to);
}

/// Each point of a run is reached by that many steps.
proof fn lemma_points<T, F: Fn(Position) -> (T, Position)>(
    source: F,
    points: Seq<Position>,
    draws: Seq<T>,
    value: spec_fn(Position) -> T,
    step: spec_fn(Position) -> Position,
    n: nat,
)
    requires
        crate::draw::are_points(source, points, draws),
        n <= draws.len(),
        forall|at: Position, drawn: T, next: Position| #[trigger]
            call_ensures(source, (at,), (drawn, next)) ==> drawn == value(at) && next == step(at),
    ensures
        points[n as int] == after_steps(step, points[0], n),
    decreases n,
{
    if n > 0 {
        lemma_points(source, points, draws, value, step, (n - 1) as nat);
        assert(call_ensures(source, (points[n - 1],), (draws[n - 1], points[n as int])));
    }
}

/// Identifiers that are drawn one after another are the draws made for them,
/// one for each: draws that differ give identifiers that differ, in their bits
/// and in their texts.
pub proof fn uids_are_their_draws<F: Fn(Position) -> (u128, Position)>(
    source: F,
    from: Position,
    before: Seq<u128>,
    at: Position,
    a: Uid,
    next: Position,
    b: Uid,
    to: Position,
) -> (log: Seq<u128>)
    requires
        crate::draw::is_run(source, from, before, at),
        call_ensures(source, (at,), (a@, next)),
        call_ensures(source, (next,), (b@, to)),
    ensures
        crate::draw::is_run(source, from, log, to),
        log == before + seq![a@, b@],
        log[before.len() as int] != log[(before.len() + 1) as int] <==> a != b,
        log[before.len() as int] != log[(before.len() + 1) as int] <==> crate::uid::hyphenated(a@)
            != crate::uid::hyphenated(b@),
{
    crate::draw::lemma_run_goes_on(source, from, before, at, a@, next);
    crate::draw::lemma_run_goes_on(source, from, before.push(a@), next, b@, to);
    assert(before.push(a@).push(b@) =~= before + seq![a@, b@]);
    uid_text_is_unique(a, b);
    if a@ == b@ {
        crate::uid::lemma_determined_by_bits(a, b);
    }
    before + seq![a@, b@]
}

/// The text of a new identifier says that it is random: its version is 4 and
/// its variant is one of 8, 9, a and b.
pub proof fn new_uid_says_that_it_is_random(bits: u128)
    requires
        crate::uid::is_random_uuid(bits),
    ensures
        crate::uid::hyphenated(bits)[14] == '4',
        ({
            let c = crate::uid::hyphenated(bits)[19];
            c == '8' || c == '9' || c == 'a' || c == 'b'
        }),
{
    let chars = seq!['0', '1', '2', '3', '4', '5', '6', '7', '8', '9', 'a', 'b', 'c', 'd', 'e', 'f'];
    assert(crate::uid::hyphenated(bits)[14] == chars[crate::uid::digit(bits, 12)]);
    assert(crate::uid::hyphenated(bits)[19] == chars[crate::uid::digit(bits, 16)]);
}

/// The text of an identifier has hyphens at four places and lower case
/// hexadecimal digits at all others.
pub proof fn uid_text_is_hyphenated_lower_case(bits: u128, i: int)
    requires
        0 <= i < 36,
    ensures
        ({
            let c = crate::uid::hyphenated(bits)[i];
            if i == 8 || i == 13 || i == 18 || i == 23 {
                c == '-'
            } else {
                '0' <= c <= '9' || 'a' <= c <= 'f'
            }
        }),
{
    let chars = seq!['0', '1', '2', '3', '4', '5', '6', '7', '8', '9', 'a', 'b', 'c', 'd', 'e', 'f'];
    assert(forall|d: int|
        0 <= d < 16 ==> {
            ||| '0' <= #[trigger] chars[d] <= '9'
            ||| 'a' <= chars[d] <= 'f'
        });
    let at = if i < 8 {
        i
    } else if i < 13 {
        i - 1
    } else if i < 18 {
        i - 2
    } else if i < 23 {
        i - 3
    } else {
        i - 4
    };
    if i != 8 && i != 13 && i != 18 && i != 23 {
        assert(crate::uid::hyphenated(bits)[i] == chars[crate::uid::digit(bits, at)]);
    }
}

/// 32 hexadecimal digits make 128 bits.
proof fn lemma_digits_of_u128()
    ensures
        vstd::arithmetic::power::pow(16, 32) == u128::MAX + 1,
{
    let p8 = vstd::arithmetic::power::pow(16, 8);
    let p16 = vstd::arithmetic::power::pow(16, 16);
    assert(p8 == 0x1_0000_0000) by {
        reveal_with_fuel(vstd::arithmetic::power::pow, 9);
    }
    vstd::arithmetic::power::lemma_pow_adds(16, 8, 8);
    assert(p8 * p8 == 0x1_0000_0000_0000_0000) by (nonlinear_arith)
        requires
            p8 == 0x1_0000_0000,
    ;
    vstd::arithmetic::power::lemma_pow_adds(16, 16, 16);
    assert(p16 * p16 == 0x1_0000_0000_0000_0000_0000_0000_0000_0000) by (nonlinear_arith)
        requires
            p16 == 0x1_0000_0000_0000_0000,
    ;
}

/// The character of a hexadecimal digit stands for that digit, and is no
/// hyphen.
proof fn lemma_hex_char(d: int)
    requires
        0 <= d < 16,
    ensures
        crate::uid::hex_value(crate::uid::hex_char(d)) == d,
        crate::uid::hex_char(d) != '-',
{
    let chars = seq!['0', '1', '2', '3', '4', '5', '6', '7', '8', '9', 'a', 'b', 'c', 'd', 'e', 'f'];
    assert(forall|i: int|
        0 <= i < 16 ==> #[trigger] chars[i] as int == if i < 10 {
            '0' as int + i
        } else {
            'a' as int + i - 10
        });
    assert(crate::uid::hex_char(d) == chars[d]);
}

/// A text that stands for the digits before `lo` stands for those before `hi`
/// with the digits from `lo` up to `hi` behind it.
proof fn lemma_read_digits(bits: u128, text: Seq<char>, lo: int, hi: int)
    requires
        0 <= lo <= hi <= 32,
        crate::uid::read_bits(text) == bits as int / vstd::arithmetic::power::pow(
            16,
            (32 - lo) as nat,
        ),
    ensures
        crate::uid::read_bits(text + crate::uid::hex_chars(bits, lo, hi)) == bits as int
            / vstd::arithmetic::power::pow(16, (32 - hi) as nat),
    decreases hi - lo,
{
    let longer = text + crate::uid::hex_chars(bits, lo, hi);
    if lo == hi {
        assert(longer =~= text);
    } else {
        let p = vstd::arithmetic::power::pow(16, (32 - hi) as nat);
        lemma_read_digits(bits, text, lo, hi - 1);
        assert(longer.drop_last() =~= text + crate::uid::hex_chars(bits, lo, hi - 1));
        assert(longer.last() == crate::uid::hex_char(crate::uid::digit(bits, hi - 1)));
        lemma_hex_char(crate::uid::digit(bits, hi - 1));
        vstd::arithmetic::power::lemma_pow_positive(16, (32 - hi) as nat);
        vstd::arithmetic::power::lemma_pow_adds(16, (32 - hi) as nat, 1);
        vstd::arithmetic::power::lemma_pow1(16);
        vstd::arithmetic::div_mod::lemma_div_denominator(bits as int, p, 16);
    }
}

/// A hyphen behind a text does not change what it stands for.
proof fn lemma_read_hyphen(text: Seq<char>)
    ensures
        crate::uid::read_bits(text + seq!['-']) == crate::uid::read_bits(text),
{
    assert((text + seq!['-']).drop_last() =~= text);
}

/// The text of an identifier has 36 characters and stands for all of its bits.
pub proof fn uid_text_gives_back_bits(uid: Uid)
    ensures
        crate::uid::hyphenated(uid@).len() == 36,
        crate::uid::read_bits(crate::uid::hyphenated(uid@)) == uid@,
{
    let bits = uid@;
    let text0 = Seq::<char>::empty();
    let text8 = crate::uid::hex_chars(bits, 0, 8);
    let text12 = text8 + seq!['-'] + crate::uid::hex_chars(bits, 8, 12);
    let text16 = text12 + seq!['-'] + crate::uid::hex_chars(bits, 12, 16);
    let text20 = text16 + seq!['-'] + crate::uid::hex_chars(bits, 16, 20);
    lemma_digits_of_u128();
    vstd::arithmetic::div_mod::lemma_basic_div(bits as int, u128::MAX + 1);
    lemma_read_digits(bits, text0, 0, 8);
    assert(text0 + text8 =~= text8);
    lemma_read_hyphen(text8);
    lemma_read_digits(bits, text8 + seq!['-'], 8, 12);
    lemma_read_hyphen(text12);
    lemma_read_digits(bits, text12 + seq!['-'], 12, 16);
    lemma_read_hyphen(text16);
    lemma_read_digits(bits, text16 + seq!['-'], 16, 20);
    lemma_read_hyphen(text20);
    lemma_read_digits(bits, text20 + seq!['-'], 20, 32);
    vstd::arithmetic::power::lemma_pow0(16);
}

/// Different identifiers have different texts.
pub proof fn uid_text_is_unique(a: Uid, b: Uid)
    ensures
        crate::uid::hyphenated(a@) == crate::uid::hyphenated(b@) <==> a == b,
{
    uid_text_gives_back_bits(a);
    uid_text_gives_back_bits(b);
    if a@ == b@ {
        crate::uid::lemma_determined_by_bits(a, b);
    }
}

/// A wire message is nothing but its kind.
pub proof fn wire_message_is_its_kind<C: Contribution, N: NodeId>(
    a: WireMessage<C, N>,
    b: WireMessage<C, N>,
)
    requires
        a@ == b@,
    ensures
        a == b,
{
    crate::wire::lemma_determined_by_kind(a, b);
}

/// A key generation message is nothing but what it says.
pub proof fn key_gen_message_is_its_kind(a: crate::key_gen::Message, b: crate::key_gen::Message)
    requires
        a@ == b@,
    ensures
        a == b,
{
    crate::key_gen::lemma_determined_by_kind(a, b);
}

/// An internal message is nothing but its parts.
pub proof fn internal_message_is_its_parts<C: Contribution, N: NodeId>(
    a: InternalMessage<C, N>,
    b: InternalMessage<C, N>,
)
    requires
        a@ == b@,
    ensures
        a == b,
{
    crate::internal::lemma_determined_by_parts(a, b);
}

} // verus!
