//! Which protocols the forwarder serves.

use vstd::prelude::*;

verus! {

/// A transport protocol that the forwarder can relay.
#[derive(Clone, Copy, Debug, PartialEq, Eq, Structural)]
pub enum Protocol {
    Tcp,
    Udp,
}

/// The two protocol switches of the command line.
///
/// Each switch asks for its protocol alone. With neither switch set, both
/// protocols are served.
#[derive(Clone, Copy, Debug, PartialEq, Eq, Structural)]
pub struct Features {
    /// Only enable TCP forwarding.
    pub tcp: bool,
    /// Only enable UDP forwarding.
    pub udp: bool,
}

impl Features {
    /// Whether `protocol` is served under these switches: it is unless the
    /// other protocol was asked for alone.
    pub open spec fn enables(self, protocol: Protocol) -> bool {
        match protocol {
            Protocol::Tcp => self.tcp || !self.udp,
            Protocol::Udp => self.udp || !self.tcp,
        }
    }

    /// Decides whether `protocol` is served.
    pub fn serves(&self, protocol: Protocol) -> (served: bool)
        ensures
            served == self.enables(protocol),
    {
        match protocol {
            Protocol::Tcp => self.tcp || !self.udp,
            Protocol::Udp => self.udp || !self.tcp,
        }
    }
}

/// The switches select the protocols as the command line describes them: the
/// TCP switch alone leaves UDP unserved, the UDP switch alone leaves TCP
/// unserved, and with neither switch both are served. Whatever the switches,
/// at least one protocol is served.
pub proof fn lemma_feature_toggle(features: Features)
    ensures
        features.tcp && !features.udp ==> features.enables(Protocol::Tcp) && !features.enables(
            Protocol::Udp,
        ),
        features.udp && !features.tcp ==> features.enables(Protocol::Udp) && !features.enables(
            Protocol::Tcp,
        ),
        !features.tcp && !features.udp ==> features.enables(Protocol::Tcp) && features.enables(
            Protocol::Udp,
        ),
        features.enables(Protocol::Tcp) || features.enables(Protocol::Udp),
{
}

} // verus!
