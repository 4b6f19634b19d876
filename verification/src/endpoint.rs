//! Where the forwarder listens.

use crate::features::Protocol;
use vstd::prelude::*;

verus! {

/// The address that every listen socket is bound to: the loopback interface,
/// never all interfaces and never a configured address.
pub open spec fn loopback_octets() -> Seq<u8> {
    seq![127u8, 0u8, 0u8, 1u8]
}

/// A loopback address with a port and a protocol, on which the forwarder
/// accepts connections or receives datagrams.
#[derive(Clone, Copy, Debug, PartialEq, Eq)]
pub struct ListenEndpoint {
    /// The protocol of the socket.
    pub protocol: Protocol,
    /// The four octets of the IPv4 address.
    pub octets: [u8; 4],
    /// The port; 0 leaves the choice to the system.
    pub port: u16,
}

impl ListenEndpoint {
    /// Whether this endpoint is the loopback endpoint of `protocol` on `port`.
    pub open spec fn is_loopback(self, protocol: Protocol, port: u16) -> bool {
        &&& self.protocol == protocol
        &&& self.octets@ == loopback_octets()
        &&& self.port == port
    }

    /// The loopback endpoint of `protocol` on `port`.
    pub fn loopback(protocol: Protocol, port: u16) -> (endpoint: ListenEndpoint)
        ensures
            endpoint.is_loopback(protocol, port),
    {
        ListenEndpoint { protocol, octets: [127, 0, 0, 1], port }
    }
}

/// The port that the forwarder listens on: the port that was asked for, or,
/// where none was, the port of the destination.
pub open spec fn chosen_port(port: Option<u16>, forward_port: u16) -> u16 {
    match port {
        Some(port) => port,
        None => forward_port,
    }
}

/// Chooses the listen port, one for both protocols.
pub fn listen_port(port: Option<u16>, forward_port: u16) -> (chosen: u16)
    ensures
        chosen == chosen_port(port, forward_port),
{
    match port {
        Some(port) => port,
        None => forward_port,
    }
}

} // verus!
