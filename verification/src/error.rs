//! The errors of sending and receiving wire messages.

use vstd::prelude::*;
use vstd::std_specs::convert::FromSpecImpl;

verus! {

/// Why a wire message could not be sent or was not accepted.
#[derive(Debug)]
pub enum Error {
    /// The connection failed, or a signed message could not be framed.
    Io(std::io::Error),
    /// A message could not be serialized or deserialized.
    Serde(bincode::Error),
    /// A message whose signature must be checked came from a peer whose
    /// public key is not known.
    VerificationMessageReceivedUnknownPeer,
    /// The signature does not match the message and the peer's public key.
    InvalidSignature,
}

impl From<std::io::Error> for Error {
    fn from(err: std::io::Error) -> (result: Error)
        ensures
            result == Error::Io(err),
    {
        Error::Io(err)
    }
}

impl FromSpecImpl<std::io::Error> for Error {
    open spec fn obeys_from_spec() -> bool {
        true
    }

    open spec fn from_spec(err: std::io::Error) -> Error {
        Error::Io(err)
    }
}

} // verus!
