//! What a node tells others about the network.

use crate::address::InAddr;
use crate::text::{write_debug, write_str};
use hbbft::crypto::{PublicKey, PublicKeySet};
use std::collections::BTreeMap;
use std::fmt::{Error, Formatter};
use vstd::prelude::*;

verus! {

/// A node of the network.
#[derive(Debug)]
pub struct NetworkNodeInfo<N> {
    /// The node's identifier.
    pub nid: N,
    /// The address that the node listens on.
    pub in_addr: InAddr,
    /// The node's public key.
    pub pk: PublicKey,
}

impl<N: Clone> Clone for NetworkNodeInfo<N> {
    fn clone(&self) -> (result: Self)
        ensures
            cloned(self.nid, result.nid),
            result.in_addr == self.in_addr,
            crate::keys::public_key_bytes(result.pk) == crate::keys::public_key_bytes(self.pk),
    {
        NetworkNodeInfo { nid: self.nid.clone(), in_addr: self.in_addr, pk: self.pk }
    }
}

/// Whether the one list of nodes is a clone of the other, node by node.
pub open spec fn nodes_cloned<N: Clone>(
    a: Seq<NetworkNodeInfo<N>>,
    b: Seq<NetworkNodeInfo<N>>,
) -> bool {
    &&& a.len() == b.len()
    &&& forall|i: int| 0 <= i < a.len() ==> cloned(#[trigger] a[i], b[i])
}

/// What is known of an active network: its nodes, the key set and the
/// validators' public keys.
pub type ActiveNetworkInfo<N> = (
    Vec<NetworkNodeInfo<N>>,
    PublicKeySet,
    BTreeMap<N, PublicKey>,
);

/// The current state of the network.
#[verifier::reject_recursive_types(N)]
pub enum NetworkState<N: Ord> {
    Nothing,
    Unknown(Vec<NetworkNodeInfo<N>>),
    AwaitingMorePeersForKeyGeneration(Vec<NetworkNodeInfo<N>>),
    GeneratingKeys(Vec<NetworkNodeInfo<N>>, BTreeMap<N, PublicKey>),
    Active(ActiveNetworkInfo<N>),
}

/// A state of which something is known, as it is written for debugging.
#[allow(dead_code)]
#[derive(Debug)]
#[verifier::reject_recursive_types(N)]
enum Known<'a, N: Ord> {
    Unknown(&'a Vec<NetworkNodeInfo<N>>),
    AwaitingMorePeersForKeyGeneration(&'a Vec<NetworkNodeInfo<N>>),
    GeneratingKeys(&'a Vec<NetworkNodeInfo<N>>, &'a BTreeMap<N, PublicKey>),
    Active(&'a ActiveNetworkInfo<N>),
}

impl<N: std::fmt::Debug + Ord> std::fmt::Debug for NetworkState<N> {
    /// Writes the name of the state and what it holds. The name of `Nothing` is
    /// `None`. How nodes are written is up to the type of their identifiers.
    fn fmt(&self, f: &mut Formatter<'_>) -> (result: Result<(), Error>)
        ensures
            *self is Nothing && result is Ok ==> crate::text::written(*final(f))
                == crate::text::written(*old(f)) + "None"@,
    {
        match self {
            NetworkState::Nothing => write_str(f, "None"),
            NetworkState::Unknown(nodes) => write_debug(f, &Known::Unknown(nodes)),
            NetworkState::AwaitingMorePeersForKeyGeneration(nodes) => write_debug(
                f,
                &Known::AwaitingMorePeersForKeyGeneration(nodes),
            ),
            NetworkState::GeneratingKeys(nodes, keys) => write_debug(
                f,
                &Known::GeneratingKeys(nodes, keys),
            ),
            NetworkState::Active(info) => write_debug(f, &Known::Active(info)),
        }
    }
}

impl<N: Clone + Ord> Clone for NetworkState<N> {
    fn clone(&self) -> (result: Self)
        ensures
            match (*self, result) {
                (NetworkState::Nothing, NetworkState::Nothing) => true,
                (NetworkState::Unknown(a), NetworkState::Unknown(b)) => nodes_cloned(a@, b@),
                (
                    NetworkState::AwaitingMorePeersForKeyGeneration(a),
                    NetworkState::AwaitingMorePeersForKeyGeneration(b),
                ) => nodes_cloned(a@, b@),
                (
                    NetworkState::GeneratingKeys(a, a_keys),
                    NetworkState::GeneratingKeys(b, b_keys),
                ) => nodes_cloned(a@, b@) && a_keys@ == b_keys@,
                (NetworkState::Active(a), NetworkState::Active(b)) => nodes_cloned(a.0@, b.0@)
                    && cloned(a.1, b.1) && a.2@ == b.2@,
                _ => false,
            },
    {
        match self {
            NetworkState::Nothing => NetworkState::Nothing,
            NetworkState::Unknown(nodes) => NetworkState::Unknown(nodes.clone()),
            NetworkState::AwaitingMorePeersForKeyGeneration(nodes) => {
                NetworkState::AwaitingMorePeersForKeyGeneration(nodes.clone())
            },
            NetworkState::GeneratingKeys(nodes, keys) => NetworkState::GeneratingKeys(
                nodes.clone(),
                keys.clone(),
            ),
            NetworkState::Active((nodes, key_set, keys)) => NetworkState::Active(
                (nodes.clone(), key_set.clone(), keys.clone()),
            ),
        }
    }
}

} // verus!
