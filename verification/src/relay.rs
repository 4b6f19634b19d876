//! The stream relay of one connection.
//!
//! A relay joins one client connection with one connection to the
//! destination and copies bytes both ways at once. The two directions are
//! independent units of work: each runs until its source reaches the end of
//! its stream or an operation on it fails, and neither ending touches the
//! other. A connection that is closed in one direction goes on draining the
//! other.

use vstd::prelude::*;

verus! {

/// One of the two connections that a relay joins.
#[derive(Clone, Copy, Debug, PartialEq, Eq, Structural)]
pub enum Side {
    /// The connection that was accepted from the client.
    Client,
    /// The connection that was opened to the destination.
    Destination,
}

/// One of the two directions in which a relay copies.
#[derive(Clone, Copy, Debug, PartialEq, Eq, Structural)]
pub enum Direction {
    /// From the client to the destination.
    Outbound,
    /// From the destination to the client.
    Inbound,
}

/// What has become of one direction of a relay.
#[derive(Clone, Copy, Debug, PartialEq, Eq, Structural)]
pub enum Flow {
    /// The direction is still copying.
    Open,
    /// The source reached the end of its stream.
    Closed,
    /// A read or a write failed.
    Failed,
}

impl Direction {
    /// The side that this direction reads from.
    pub open spec fn source_side(self) -> Side {
        match self {
            Direction::Outbound => Side::Client,
            Direction::Inbound => Side::Destination,
        }
    }

    /// The side that this direction writes to.
    pub open spec fn sink_side(self) -> Side {
        match self {
            Direction::Outbound => Side::Destination,
            Direction::Inbound => Side::Client,
        }
    }

    /// The other direction.
    pub open spec fn reverse(self) -> Direction {
        match self {
            Direction::Outbound => Direction::Inbound,
            Direction::Inbound => Direction::Outbound,
        }
    }

    /// The side whose read half this direction copies from.
    pub fn source(self) -> (side: Side)
        ensures
            side == self.source_side(),
    {
        match self {
            Direction::Outbound => Side::Client,
            Direction::Inbound => Side::Destination,
        }
    }

    /// The side whose write half this direction copies to.
    pub fn sink(self) -> (side: Side)
        ensures
            side == self.sink_side(),
            side != self.source_side(),
    {
        match self {
            Direction::Outbound => Side::Destination,
            Direction::Inbound => Side::Client,
        }
    }

    /// The direction that copies the other way.
    pub fn opposite(self) -> (other: Direction)
        ensures
            other == self.reverse(),
            other != self,
    {
        match self {
            Direction::Outbound => Direction::Inbound,
            Direction::Inbound => Direction::Outbound,
        }
    }
}

impl Flow {
    /// What an open direction becomes when its copy ends: closed if the copy
    /// ran to the end of the stream, failed if it ended on an error.
    pub open spec fn of_ending(clean: bool) -> Flow {
        if clean {
            Flow::Closed
        } else {
            Flow::Failed
        }
    }

    /// What an open direction becomes when its copy ends, cleanly or not.
    pub fn ending(clean: bool) -> (flow: Flow)
        ensures
            flow == Flow::of_ending(clean),
    {
        if clean {
            Flow::Closed
        } else {
            Flow::Failed
        }
    }
}

/// The two directions of one relay. The relay is live from its start until
/// both directions have ended.
#[derive(Clone, Copy, Debug, PartialEq, Eq, Structural)]
pub struct Relay {
    /// The direction from the client to the destination.
    pub outbound: Flow,
    /// The direction from the destination to the client.
    pub inbound: Flow,
}

impl Relay {
    /// What has become of `direction`.
    pub open spec fn flow_of(self, direction: Direction) -> Flow {
        match direction {
            Direction::Outbound => self.outbound,
            Direction::Inbound => self.inbound,
        }
    }

    /// Whether a direction is still copying.
    pub open spec fn live(self) -> bool {
        self.outbound is Open || self.inbound is Open
    }

    /// The relay after the copy of `direction` has ended, cleanly or not. The
    /// ending of a direction that had ended before changes nothing.
    pub open spec fn ended(self, direction: Direction, clean: bool) -> Relay {
        if self.flow_of(direction) is Open {
            match direction {
                Direction::Outbound => Relay { outbound: Flow::of_ending(clean), ..self },
                Direction::Inbound => Relay { inbound: Flow::of_ending(clean), ..self },
            }
        } else {
            self
        }
    }

    /// A relay at its start, with both directions copying.
    pub fn new() -> (relay: Relay)
        ensures
            relay.outbound is Open,
            relay.inbound is Open,
    {
        Relay { outbound: Flow::Open, inbound: Flow::Open }
    }

    /// What has become of `direction`.
    pub fn flow(&self, direction: Direction) -> (flow: Flow)
        ensures
            flow == self.flow_of(direction),
    {
        match direction {
            Direction::Outbound => self.outbound,
            Direction::Inbound => self.inbound,
        }
    }

    /// Whether a direction is still copying.
    pub fn is_live(&self) -> (live: bool)
        ensures
            live == self.live(),
    {
        matches!(self.outbound, Flow::Open) || matches!(self.inbound, Flow::Open)
    }

    /// Records that the copy of `direction` has ended: at the end of its
    /// stream if `clean`, on an error if not. The other direction is left as
    /// it was.
    pub fn end(&mut self, direction: Direction, clean: bool)
        ensures
            *final(self) == old(self).ended(direction, clean),
            final(self).flow_of(direction.reverse()) == old(self).flow_of(direction.reverse()),
    {
        let ending = Flow::ending(clean);
        match direction {
            Direction::Outbound => {
                if matches!(self.outbound, Flow::Open) {
                    self.outbound = ending;
                }
            },
            Direction::Inbound => {
                if matches!(self.inbound, Flow::Open) {
                    self.inbound = ending;
                }
            },
        }
    }
}

/// Each direction reads from one side and writes to the other, and the two
/// directions cross: what one reads from, the other writes to.
pub proof fn lemma_directions_cross(direction: Direction)
    ensures
        direction.source_side() != direction.sink_side(),
        direction.reverse().source_side() == direction.sink_side(),
        direction.reverse().sink_side() == direction.source_side(),
        direction.reverse().reverse() == direction,
{
}

/// The ending of one direction, clean or not, does not interrupt the other:
/// the other direction is what it was, and if it was copying, the relay is
/// still live.
pub proof fn lemma_half_close_independence(relay: Relay, direction: Direction, clean: bool)
    ensures
        relay.ended(direction, clean).flow_of(direction.reverse()) == relay.flow_of(
            direction.reverse(),
        ),
        relay.flow_of(direction.reverse()) is Open ==> relay.ended(direction, clean).live(),
{
}

/// The two directions may end in either order: the relay comes out the same.
pub proof fn lemma_endings_commute(relay: Relay, first: bool, second: bool)
    ensures
        relay.ended(Direction::Outbound, first).ended(Direction::Inbound, second) == relay.ended(
            Direction::Inbound,
            second,
        ).ended(Direction::Outbound, first),
{
}

/// A relay stops being live exactly when both directions have ended, and a
/// direction that has ended never copies again.
pub proof fn lemma_relay_lifetime(relay: Relay, direction: Direction, clean: bool)
    ensures
        !relay.live() <==> relay.outbound !is Open && relay.inbound !is Open,
        relay.ended(direction, clean).flow_of(direction) !is Open,
        relay.flow_of(direction) !is Open ==> relay.ended(direction, clean) == relay,
        !relay.live() ==> !relay.ended(direction, clean).live(),
{
}

} // verus!
