//! What user contributions and node identifiers have to offer.

use std::fmt::{Debug, Display};
use std::hash::Hash;
use vstd::prelude::*;

verus! {

/// A user contribution to consensus.
pub trait Contribution: Eq + Debug + Hash + Send + Sync + Clone + 'static {

}

impl<C> Contribution for C where C: Eq + Debug + Hash + Send + Sync + Clone + 'static {

}

/// A node's unique identifier.
pub trait NodeId: Eq + Ord + Clone + Debug + Hash + Send + Sync + Display + 'static {

}

impl<N> NodeId for N where
    N: Eq + Ord + Clone + Debug + Hash + Send + Sync + Display + 'static,
{

}

} // verus!
