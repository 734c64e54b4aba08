//! Messages of synchronous key generation.

use crate::uid::Uid;
use hbbft::sync_key_gen::{Ack, Part};
use vstd::prelude::*;

verus! {

/// Which run of key generation a message belongs to.
#[derive(Clone, Copy, Debug, PartialEq, Eq, Structural, Hash)]
pub enum InstanceId {
    /// The run that the network starts with.
    BuiltIn,
    /// A run that a user has started.
    User(Uid),
}

/// What a key generation message says.
#[derive(Clone, Debug)]
pub enum MessageKind {
    /// A proposal.
    Part(Part),
    /// A confirmation of a proposal.
    Ack(Ack),
}

/// A message of synchronous key generation.
#[derive(Clone, Debug)]
pub struct Message {
    kind: MessageKind,
}

impl View for Message {
    type V = MessageKind;

    closed spec fn view(&self) -> MessageKind {
        self.kind
    }
}

pub(crate) proof fn lemma_determined_by_kind(a: Message, b: Message)
    requires
        a@ == b@,
    ensures
        a == b,
{
}

impl Message {
    /// Returns a `Part` message.
    pub fn part(part: Part) -> (msg: Message)
        ensures
            msg@ == MessageKind::Part(part),
    {
        Message { kind: MessageKind::Part(part) }
    }

    /// Returns an `Ack` message.
    pub fn ack(ack: Ack) -> (msg: Message)
        ensures
            msg@ == MessageKind::Ack(ack),
    {
        Message { kind: MessageKind::Ack(ack) }
    }

    /// Returns what the message says.
    pub fn kind(&self) -> (kind: &MessageKind)
        ensures
            *kind == self@,
    {
        &self.kind
    }

    /// Consumes the message into what it says.
    pub fn into_kind(self) -> (kind: MessageKind)
        ensures
            kind == self@,
    {
        self.kind
    }
}

} // verus!
