//! Messages of a Honey Badger network node: what a node sends over the wire,
//! how it signs and checks it, and what its own tasks tell each other.
//!
//! A message travels as a *frame*: the serialized message together with a
//! signature made with the sender's secret key. The receiver checks that
//! signature for the messages that take part in consensus and in key
//! generation.

pub mod address;
pub mod bounds;
pub mod draw;
pub mod error;
pub mod frame;
pub mod internal;
pub mod key_gen;
pub mod keys;
pub mod laws;
pub mod network;
pub mod outside;
pub mod stream;
pub mod text;
pub mod transaction;
pub mod uid;
pub mod wire;

pub use crate::address::{InAddr, OutAddr, SocketAddr};
pub use crate::bounds::{Contribution, NodeId};
pub use crate::error::Error;
pub use crate::frame::SignedWireMessage;
pub use crate::internal::{Change, InternalMessage, InternalMessageKind};
pub use crate::network::{NetworkNodeInfo, NetworkState};
pub use crate::stream::{decide, Poll, WireMessages};
pub use crate::transaction::Transaction;
pub use crate::uid::Uid;
pub use crate::wire::{Message, WireMessage, WireMessageKind};
