//! Messages sent over the network between nodes.

use crate::address::InAddr;
use crate::bounds::{Contribution, NodeId};
use crate::key_gen;
use crate::network::NetworkState;
use bytes::Bytes;
use hbbft::crypto::PublicKey;
use hbbft::dynamic_honey_badger::JoinPlan;
use hbbft::sync_key_gen::{Ack, Part};
use vstd::prelude::*;
use vstd::std_specs::convert::FromSpecImpl;

verus! {

/// A consensus message.
pub type Message<N> = hbbft::dynamic_honey_badger::Message<N>;

/// Messages sent over the network between nodes.
///
/// `Message` and `KeyGen` variants are those whose signature is checked.
#[derive(Clone, Debug)]
#[verifier::reject_recursive_types(N)]
pub enum WireMessageKind<C, N: Ord> {
    HelloFromValidator(N, InAddr, PublicKey, NetworkState<N>),
    HelloRequestChangeAdd(N, InAddr, PublicKey),
    WelcomeReceivedChangeAdd(N, PublicKey, NetworkState<N>),
    RequestNetworkState,
    NetworkState(NetworkState<N>),
    Goodbye,
    Bytes(Bytes),
    /// A Honey Badger message.
    ///
    /// All received messages are verified against the senders public key
    /// using an attached signature.
    Message(N, Message<N>),
    Transaction(N, C),
    /// Messages used during synchronous key generation.
    KeyGen(key_gen::InstanceId, key_gen::Message),
    JoinPlan(JoinPlan<N>),
}

impl<C, N: Ord> WireMessageKind<C, N> {
    /// Whether the signature of a received message of this kind is checked.
    pub open spec fn is_checked(self) -> bool {
        self is Message || self is KeyGen
    }

    /// Returns whether the signature of a received message of this kind is
    /// checked.
    pub fn needs_verification(&self) -> (checked: bool)
        ensures
            checked == self.is_checked(),
            match *self {
                WireMessageKind::HelloFromValidator(..) => !checked,
                WireMessageKind::HelloRequestChangeAdd(..) => !checked,
                WireMessageKind::WelcomeReceivedChangeAdd(..) => !checked,
                WireMessageKind::RequestNetworkState => !checked,
                WireMessageKind::NetworkState(..) => !checked,
                WireMessageKind::Goodbye => !checked,
                WireMessageKind::Bytes(..) => !checked,
                WireMessageKind::Message(..) => checked,
                WireMessageKind::Transaction(..) => !checked,
                WireMessageKind::KeyGen(..) => checked,
                WireMessageKind::JoinPlan(..) => !checked,
            },
    {
        match self {
            WireMessageKind::Message(..) | WireMessageKind::KeyGen(..) => true,
            _ => false,
        }
    }
}

/// Messages sent over the network between nodes.
#[derive(Clone, Debug)]
#[verifier::reject_recursive_types(N)]
pub struct WireMessage<C, N: Ord> {
    kind: WireMessageKind<C, N>,
}

impl<C, N: Ord> View for WireMessage<C, N> {
    type V = WireMessageKind<C, N>;

    closed spec fn view(&self) -> WireMessageKind<C, N> {
        self.kind
    }
}

pub(crate) proof fn lemma_determined_by_kind<C, N: Ord>(a: WireMessage<C, N>, b: WireMessage<C, N>)
    requires
        a@ == b@,
    ensures
        a == b,
{
}

impl<C: Contribution, N: NodeId> WireMessage<C, N> {
    /// Returns a `HelloFromValidator` variant.
    pub fn hello_from_validator(
        src_uid: N,
        in_addr: InAddr,
        pk: PublicKey,
        net_state: NetworkState<N>,
    ) -> (msg: WireMessage<C, N>)
        ensures
            msg@ == WireMessageKind::<C, N>::HelloFromValidator(src_uid, in_addr, pk, net_state),
    {
        WireMessageKind::HelloFromValidator(src_uid, in_addr, pk, net_state).into()
    }

    /// Returns a `HelloRequestChangeAdd` variant.
    pub fn hello_request_change_add(src_uid: N, in_addr: InAddr, pk: PublicKey) -> (msg:
        WireMessage<C, N>)
        ensures
            msg@ == WireMessageKind::<C, N>::HelloRequestChangeAdd(src_uid, in_addr, pk),
    {
        WireMessageKind::HelloRequestChangeAdd(src_uid, in_addr, pk).into()
    }

    /// Returns a `WelcomeReceivedChangeAdd` variant.
    pub fn welcome_received_change_add(
        src_uid: N,
        pk: PublicKey,
        net_state: NetworkState<N>,
    ) -> (msg: WireMessage<C, N>)
        ensures
            msg@ == WireMessageKind::<C, N>::WelcomeReceivedChangeAdd(src_uid, pk, net_state),
    {
        WireMessageKind::WelcomeReceivedChangeAdd(src_uid, pk, net_state).into()
    }

    /// Returns a `Transaction` variant.
    pub fn transaction(src_uid: N, txn: C) -> (msg: WireMessage<C, N>)
        ensures
            msg@ == WireMessageKind::<C, N>::Transaction(src_uid, txn),
    {
        WireMessageKind::Transaction(src_uid, txn).into()
    }

    /// Returns a `Message` variant.
    pub fn message(src_uid: N, msg: Message<N>) -> (wire: WireMessage<C, N>)
        ensures
            wire@ == WireMessageKind::<C, N>::Message(src_uid, msg),
    {
        WireMessageKind::Message(src_uid, msg).into()
    }

    /// Returns a `KeyGen` variant.
    pub fn key_gen(instance_id: key_gen::InstanceId, msg: key_gen::Message) -> (wire:
        WireMessage<C, N>)
        ensures
            wire@ == WireMessageKind::<C, N>::KeyGen(instance_id, msg),
    {
        WireMessageKind::KeyGen(instance_id, msg).into()
    }

    /// Returns a `KeyGen` variant that holds a proposal.
    pub fn key_gen_part(instance_id: key_gen::InstanceId, part: Part) -> (wire: WireMessage<C, N>)
        ensures
            wire@ matches WireMessageKind::KeyGen(id, msg) && id == instance_id && msg@
                == key_gen::MessageKind::Part(part),
    {
        WireMessage::key_gen(instance_id, key_gen::Message::part(part))
    }

    /// Returns a `KeyGen` variant that holds a confirmation.
    pub fn key_gen_ack(instance_id: key_gen::InstanceId, ack: Ack) -> (wire: WireMessage<C, N>)
        ensures
            wire@ matches WireMessageKind::KeyGen(id, msg) && id == instance_id && msg@
                == key_gen::MessageKind::Ack(ack),
    {
        WireMessage::key_gen(instance_id, key_gen::Message::ack(ack))
    }

    /// Returns a `JoinPlan` variant.
    pub fn join_plan(jp: JoinPlan<N>) -> (wire: WireMessage<C, N>)
        ensures
            wire@ == WireMessageKind::<C, N>::JoinPlan(jp),
    {
        WireMessageKind::JoinPlan(jp).into()
    }

    /// Returns the wire message kind.
    pub fn kind(&self) -> (kind: &WireMessageKind<C, N>)
        ensures
            *kind == self@,
    {
        &self.kind
    }

    /// Consumes this `WireMessage` into its kind.
    pub fn into_kind(self) -> (kind: WireMessageKind<C, N>)
        ensures
            kind == self@,
    {
        self.kind
    }
}

impl<C: Contribution, N: NodeId> From<WireMessageKind<C, N>> for WireMessage<C, N> {
    fn from(kind: WireMessageKind<C, N>) -> (msg: WireMessage<C, N>)
        ensures
            msg@ == kind,
    {
        WireMessage { kind }
    }
}

impl<C: Contribution, N: NodeId> FromSpecImpl<WireMessageKind<C, N>> for WireMessage<C, N> {
    open spec fn obeys_from_spec() -> bool {
        true
    }

    closed spec fn from_spec(kind: WireMessageKind<C, N>) -> WireMessage<C, N> {
        WireMessage { kind }
    }
}

} // verus!
