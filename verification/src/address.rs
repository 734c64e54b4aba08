//! The addresses of peers.

use std::ops::Deref;
use vstd::prelude::*;
use vstd::string::StringExecFns;

verus! {

/// A socket address: an IP address and a port.
#[derive(Clone, Copy, Debug, PartialEq, Eq, Hash)]
pub enum SocketAddr {
    /// An IPv4 address.
    V4 { octets: [u8; 4], port: u16 },
    /// An IPv6 address.
    V6 { segments: [u16; 8], port: u16, flowinfo: u32, scope_id: u32 },
}

/// A peer's incoming (listening) address.
#[derive(Clone, Copy, Debug, PartialEq, Eq, Hash)]
pub struct InAddr(pub SocketAddr);

impl InAddr {
    /// Returns the text of this address, where `addr` is the text of the
    /// socket address in it.
    pub fn display(&self, addr: &str) -> (text: String)
        ensures
            text@ == "InAddr("@ + addr@ + ")"@,
    {
        String::from_str("InAddr(").concat(addr).concat(")")
    }
}

impl Deref for InAddr {
    type Target = SocketAddr;

    fn deref(&self) -> (addr: &SocketAddr)
        ensures
            *addr == self.0,
    {
        &self.0
    }
}

/// An internal address used to respond to a connected peer.
#[derive(Clone, Copy, Debug, PartialEq, Eq, Hash)]
pub struct OutAddr(pub SocketAddr);

impl OutAddr {
    /// Returns the text of this address, where `addr` is the text of the
    /// socket address in it.
    pub fn display(&self, addr: &str) -> (text: String)
        ensures
            text@ == "OutAddr("@ + addr@ + ")"@,
    {
        String::from_str("OutAddr(").concat(addr).concat(")")
    }
}

impl Deref for OutAddr {
    type Target = SocketAddr;

    fn deref(&self) -> (addr: &SocketAddr)
        ensures
            *addr == self.0,
    {
        &self.0
    }
}

} // verus!
