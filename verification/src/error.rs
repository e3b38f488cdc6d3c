//! Why an endpoint turns a request down.

use libp2p_core::Multiaddr;
use vstd::prelude::*;

verus! {

/// A failure of the endpoint itself.
#[derive(Debug)]
pub enum Error {
    /// A listener already holds the endpoint's stream of new connections.
    AlreadyListening,
    /// The engine refused to start the connection.
    CannotConnect(quinn_proto::ConnectError),
}

/// A failure of `listen_on` or `dial`.
#[derive(Debug)]
pub enum TransportError {
    /// The address is not one this endpoint can serve. It is handed back.
    MultiaddrNotSupported(Multiaddr),
    /// The address was fine; the endpoint failed.
    Other(Error),
}

} // verus!
