//! Types of other crates that messages carry.
//!
//! Each declaration makes a type known to the verifier as an opaque value:
//! nothing is said of what it holds. Messages can be cloned, so the clones of
//! what they carry are declared here too.

use hbbft::dynamic_honey_badger::{Change as DhbChange, JoinPlan as DhbJoinPlan, Message as DhbMessage};
use vstd::prelude::*;

verus! {

/// `hbbft::crypto::PublicKey`: the key that a node's signatures are checked with.
#[verifier::external_type_specification]
#[verifier::external_body]
pub struct ExPublicKey(hbbft::crypto::PublicKey);

/// `hbbft::crypto::PublicKeySet`: the public keys of a validator set.
#[verifier::external_type_specification]
#[verifier::external_body]
pub struct ExPublicKeySet(hbbft::crypto::PublicKeySet);

/// `hbbft::crypto::SecretKey`: the key that a node signs with.
#[verifier::external_type_specification]
#[verifier::external_body]
pub struct ExSecretKey(hbbft::crypto::SecretKey);

/// `hbbft::crypto::Signature`: a signature over a message.
#[verifier::external_type_specification]
#[verifier::external_body]
pub struct ExSignature(hbbft::crypto::Signature);

/// `hbbft::sync_key_gen::Part`: a proposal of synchronous key generation.
#[verifier::external_type_specification]
#[verifier::external_body]
pub struct ExPart(hbbft::sync_key_gen::Part);

/// `hbbft::sync_key_gen::Ack`: a confirmation of a `Part`.
#[verifier::external_type_specification]
#[verifier::external_body]
pub struct ExAck(hbbft::sync_key_gen::Ack);

/// `hbbft::dynamic_honey_badger::Message`: a consensus message.
#[verifier::external_type_specification]
#[verifier::external_body]
#[verifier::reject_recursive_types(N)]
pub struct ExDhbMessage<N: Ord>(DhbMessage<N>);

/// `hbbft::dynamic_honey_badger::Change`: a vote to change the validator set.
#[verifier::external_type_specification]
#[verifier::external_body]
#[verifier::reject_recursive_types(N)]
pub struct ExDhbChange<N: Ord>(DhbChange<N>);

/// `hbbft::dynamic_honey_badger::JoinPlan`: what a joining observer needs to know.
#[verifier::external_type_specification]
#[verifier::external_body]
#[verifier::reject_recursive_types(N)]
pub struct ExJoinPlan<N: Ord>(DhbJoinPlan<N>);

/// `bytes::Bytes`: a raw payload.
#[verifier::external_type_specification]
#[verifier::external_body]
pub struct ExBytes(bytes::Bytes);

/// `futures::channel::mpsc::UnboundedSender`: the sending half of a channel.
#[verifier::external_type_specification]
#[verifier::external_body]
#[verifier::reject_recursive_types(T)]
pub struct ExUnboundedSender<T>(futures::channel::mpsc::UnboundedSender<T>);

/// `bincode::ErrorKind`: what `bincode::Error` boxes.
#[verifier::external_type_specification]
#[verifier::external_body]
pub struct ExBincodeErrorKind(bincode::ErrorKind);

/// `std::io::Error`: a failure of the connection.
#[verifier::external_type_specification]
#[verifier::external_body]
pub struct ExIoError(std::io::Error);

/// `std::fmt::Formatter`: where a text is written to.
#[verifier::external_type_specification]
#[verifier::external_body]
pub struct ExFormatter<'a>(std::fmt::Formatter<'a>);

/// `std::fmt::Error`: a text could not be written.
#[verifier::external_type_specification]
#[verifier::external_body]
pub struct ExFmtError(std::fmt::Error);

/// `Clone` of `hbbft::crypto::PublicKey`. Claimed: the clone has the same
/// representation.
pub assume_specification[ <hbbft::crypto::PublicKey as Clone>::clone ](
    key: &hbbft::crypto::PublicKey,
) -> (result: hbbft::crypto::PublicKey)
    ensures
        crate::keys::public_key_bytes(result) == crate::keys::public_key_bytes(*key),
;

/// `Clone` of `hbbft::crypto::Signature`. Claimed: the clone has the same
/// representation.
pub assume_specification[ <hbbft::crypto::Signature as Clone>::clone ](
    sig: &hbbft::crypto::Signature,
) -> (result: hbbft::crypto::Signature)
    ensures
        crate::keys::signature_bytes(result) == crate::keys::signature_bytes(*sig),
;

/// `Clone` of `hbbft::crypto::PublicKeySet`. Nothing is claimed of the clone.
pub assume_specification[ <hbbft::crypto::PublicKeySet as Clone>::clone ](
    keys: &hbbft::crypto::PublicKeySet,
) -> (result: hbbft::crypto::PublicKeySet)
;

/// `Clone` of `hbbft::sync_key_gen::Part`. Nothing is claimed of the clone.
pub assume_specification[ <hbbft::sync_key_gen::Part as Clone>::clone ](
    part: &hbbft::sync_key_gen::Part,
) -> (result: hbbft::sync_key_gen::Part)
;

/// `Clone` of `hbbft::sync_key_gen::Ack`. Nothing is claimed of the clone.
pub assume_specification[ <hbbft::sync_key_gen::Ack as Clone>::clone ](
    ack: &hbbft::sync_key_gen::Ack,
) -> (result: hbbft::sync_key_gen::Ack)
;

/// `Clone` of `hbbft::dynamic_honey_badger::Message`. Nothing is claimed of
/// the clone.
pub assume_specification<N: Clone + Ord>[ <DhbMessage<N> as Clone>::clone ](
    msg: &DhbMessage<N>,
) -> (result: DhbMessage<N>)
;

/// `Clone` of `hbbft::dynamic_honey_badger::Change`. Nothing is claimed of the
/// clone.
pub assume_specification<N: Clone + Ord>[ <DhbChange<N> as Clone>::clone ](
    vote: &DhbChange<N>,
) -> (result: DhbChange<N>)
;

/// `Clone` of `hbbft::dynamic_honey_badger::JoinPlan`. Nothing is claimed of
/// the clone.
pub assume_specification<N: Clone + Ord>[ <DhbJoinPlan<N> as Clone>::clone ](
    plan: &DhbJoinPlan<N>,
) -> (result: DhbJoinPlan<N>)
;

/// `Clone` of `bytes::Bytes`. Nothing is claimed of the clone.
pub assume_specification[ <bytes::Bytes as Clone>::clone ](payload: &bytes::Bytes) -> (result:
    bytes::Bytes)
;

/// `Clone` of `futures::channel::mpsc::UnboundedSender`. Nothing is claimed of
/// the clone.
pub assume_specification<T>[ <futures::channel::mpsc::UnboundedSender<T> as Clone>::clone ](
    tx: &futures::channel::mpsc::UnboundedSender<T>,
) -> (result: futures::channel::mpsc::UnboundedSender<T>)
;

} // verus!
