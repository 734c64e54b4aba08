//! Messages between a node's own tasks.

use crate::address::{InAddr, OutAddr};
use crate::bounds::{Contribution, NodeId};
use crate::key_gen;
use crate::wire::{Message, WireMessage};
use futures::channel::mpsc::UnboundedSender;
use hbbft::crypto::PublicKey;
use vstd::prelude::*;

verus! {

/// A vote to change the validator set.
pub type Change<N> = hbbft::dynamic_honey_badger::Change<N>;

/// A message between internal threads/tasks.
#[derive(Clone, Debug)]
#[verifier::reject_recursive_types(C)]
#[verifier::reject_recursive_types(N)]
pub enum InternalMessageKind<C: Contribution, N: NodeId> {
    Wire(WireMessage<C, N>),
    HbMessage(Message<N>),
    HbContribution(C),
    HbChange(Change<N>),
    PeerDisconnect,
    NewIncomingConnection(InAddr, PublicKey, bool),
    NewOutgoingConnection,
    NewKeyGenInstance(UnboundedSender<key_gen::Message>),
}

/// A message between internal threads/tasks.
#[derive(Clone, Debug)]
#[verifier::reject_recursive_types(C)]
#[verifier::reject_recursive_types(N)]
pub struct InternalMessage<C: Contribution, N: NodeId> {
    src_uid: Option<N>,
    src_addr: OutAddr,
    kind: InternalMessageKind<C, N>,
}

/// An internal message is its source's identifier, where it is known, its
/// source's address, and what it says.
impl<C: Contribution, N: NodeId> View for InternalMessage<C, N> {
    type V = (Option<N>, OutAddr, InternalMessageKind<C, N>);

    closed spec fn view(&self) -> (Option<N>, OutAddr, InternalMessageKind<C, N>) {
        (self.src_uid, self.src_addr, self.kind)
    }
}

pub(crate) proof fn lemma_determined_by_parts<C: Contribution, N: NodeId>(
    a: InternalMessage<C, N>,
    b: InternalMessage<C, N>,
)
    requires
        a@ == b@,
    ensures
        a == b,
{
}

impl<C: Contribution, N: NodeId> InternalMessage<C, N> {
    /// Returns a new `InternalMessage`.
    pub fn new(
        src_uid: Option<N>,
        src_addr: OutAddr,
        kind: InternalMessageKind<C, N>,
    ) -> (msg: InternalMessage<C, N>)
        ensures
            msg@ == (src_uid, src_addr, kind),
    {
        InternalMessage { src_uid, src_addr, kind }
    }

    /// Returns a new `InternalMessage` without a uid.
    pub fn new_without_uid(src_addr: OutAddr, kind: InternalMessageKind<C, N>) -> (msg:
        InternalMessage<C, N>)
        ensures
            msg@ == (None::<N>, src_addr, kind),
    {
        InternalMessage::new(None, src_addr, kind)
    }

    /// Returns a `Wire` message.
    pub fn wire(src_uid: Option<N>, src_addr: OutAddr, wire_message: WireMessage<C, N>) -> (msg:
        InternalMessage<C, N>)
        ensures
            msg@ == (src_uid, src_addr, InternalMessageKind::Wire(wire_message)),
    {
        InternalMessage::new(src_uid, src_addr, InternalMessageKind::Wire(wire_message))
    }

    /// Returns a `HbMessage` message.
    pub fn hb_message(src_uid: N, src_addr: OutAddr, msg: Message<N>) -> (internal:
        InternalMessage<C, N>)
        ensures
            internal@ == (Some(src_uid), src_addr, InternalMessageKind::<C, N>::HbMessage(msg)),
    {
        InternalMessage::new(Some(src_uid), src_addr, InternalMessageKind::HbMessage(msg))
    }

    /// Returns a `HbContribution` message.
    pub fn hb_contribution(src_uid: N, src_addr: OutAddr, contribution: C) -> (msg: InternalMessage<
        C,
        N,
    >)
        ensures
            msg@ == (
                Some(src_uid),
                src_addr,
                InternalMessageKind::<C, N>::HbContribution(contribution),
            ),
    {
        InternalMessage::new(Some(src_uid), src_addr, InternalMessageKind::HbContribution(contribution))
    }

    /// Returns a `HbChange` message.
    pub fn hb_vote(src_uid: N, src_addr: OutAddr, change: Change<N>) -> (msg: InternalMessage<C, N>)
        ensures
            msg@ == (Some(src_uid), src_addr, InternalMessageKind::<C, N>::HbChange(change)),
    {
        InternalMessage::new(Some(src_uid), src_addr, InternalMessageKind::HbChange(change))
    }

    /// Returns a `PeerDisconnect` message.
    pub fn peer_disconnect(src_uid: N, src_addr: OutAddr) -> (msg: InternalMessage<C, N>)
        ensures
            msg@ == (Some(src_uid), src_addr, InternalMessageKind::<C, N>::PeerDisconnect),
    {
        InternalMessage::new(Some(src_uid), src_addr, InternalMessageKind::PeerDisconnect)
    }

    /// Returns a `NewIncomingConnection` message.
    pub fn new_incoming_connection(
        src_uid: N,
        src_addr: OutAddr,
        src_in_addr: InAddr,
        src_pk: PublicKey,
        request_change_add: bool,
    ) -> (msg: InternalMessage<C, N>)
        ensures
            msg@ == (
                Some(src_uid),
                src_addr,
                InternalMessageKind::<C, N>::NewIncomingConnection(
                    src_in_addr,
                    src_pk,
                    request_change_add,
                ),
            ),
    {
        InternalMessage::new(
            Some(src_uid),
            src_addr,
            InternalMessageKind::NewIncomingConnection(src_in_addr, src_pk, request_change_add),
        )
    }

    /// Returns a `NewKeyGenInstance` message.
    pub fn new_key_gen_instance(
        src_uid: N,
        src_addr: OutAddr,
        tx: UnboundedSender<key_gen::Message>,
    ) -> (msg: InternalMessage<C, N>)
        ensures
            msg@ == (Some(src_uid), src_addr, InternalMessageKind::<C, N>::NewKeyGenInstance(tx)),
    {
        InternalMessage::new(Some(src_uid), src_addr, InternalMessageKind::NewKeyGenInstance(tx))
    }

    /// Returns a `NewOutgoingConnection` message, which has no uid.
    pub fn new_outgoing_connection(src_addr: OutAddr) -> (msg: InternalMessage<C, N>)
        ensures
            msg@ == (None::<N>, src_addr, InternalMessageKind::<C, N>::NewOutgoingConnection),
    {
        InternalMessage::new_without_uid(src_addr, InternalMessageKind::NewOutgoingConnection)
    }

    /// Returns the source unique identifier this message was received in.
    pub fn src_uid(&self) -> (src_uid: Option<&N>)
        ensures
            src_uid is Some <==> self@.0 is Some,
            src_uid matches Some(uid) ==> self@.0 == Some(*uid),
    {
        self.src_uid.as_ref()
    }

    /// Returns the source socket this message was received on.
    pub fn src_addr(&self) -> (src_addr: &OutAddr)
        ensures
            *src_addr == self@.1,
    {
        &self.src_addr
    }

    /// Returns the internal message kind.
    pub fn kind(&self) -> (kind: &InternalMessageKind<C, N>)
        ensures
            *kind == self@.2,
    {
        &self.kind
    }

    /// Consumes this `InternalMessage` into its parts.
    pub fn into_parts(self) -> (parts: (Option<N>, OutAddr, InternalMessageKind<C, N>))
        ensures
            parts == self@,
    {
        (self.src_uid, self.src_addr, self.kind)
    }
}

} // verus!
