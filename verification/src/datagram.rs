//! The datagram relay loop.
//!
//! The loop binds its UDP socket once. Then it receives one datagram at a
//! time into a buffer of fixed capacity and sends exactly the bytes received
//! to the destination, once, before it receives again. It keeps nothing from
//! one datagram to the next and sends nothing back to the sender. A datagram
//! that is longer than the buffer arrives cut to the buffer's capacity. The
//! first failure to receive or to send ends the loop.
//!
//! As the listener loop, this one is a function from its state and the
//! outcome of the operation it was waiting for to its next state and the next
//! thing to do; the driver does the I/O. `E` is the driver's type of an I/O
//! error.

use crate::endpoint::ListenEndpoint;
use crate::fault::Fault;
use crate::features::Protocol;
use vstd::prelude::*;
use vstd::slice::slice_subrange;

verus! {

/// The capacity of the receive buffer, and so the length of the longest
/// datagram that is relayed whole.
pub const DATAGRAM_CAPACITY: usize = 1024;

/// The bytes that a receive of `size` bytes into `buffer` has delivered: the
/// first `size` bytes of the buffer.
pub open spec fn received_span(buffer: Seq<u8>, size: nat) -> Seq<u8> {
    buffer.take(size as int)
}

/// What a socket leaves behind when it receives the datagram `wire` into a
/// buffer: as many leading bytes of the datagram as the buffer holds, at the
/// start of the buffer, and their number as the size received. `buffer` is
/// the buffer after the receive.
pub open spec fn receives(wire: Seq<u8>, buffer: Seq<u8>, size: nat) -> bool {
    &&& size == if wire.len() <= buffer.len() {
        wire.len()
    } else {
        buffer.len()
    }
    &&& buffer.take(size as int) == wire.take(size as int)
}

/// A fresh buffer to receive one datagram into: `DATAGRAM_CAPACITY` zero
/// bytes.
pub fn receive_buffer() -> (buffer: Vec<u8>)
    ensures
        buffer@.len() == DATAGRAM_CAPACITY,
        forall|i: int| 0 <= i < buffer@.len() ==> buffer@[i] == 0u8,
{
    vec![0u8; DATAGRAM_CAPACITY]
}

/// One received datagram: a receive buffer together with the number of bytes
/// that the receive delivered into it. Its view is those bytes. It is never
/// longer than `DATAGRAM_CAPACITY` and cannot be changed.
#[derive(Debug)]
pub struct Datagram {
    buffer: Vec<u8>,
    size: usize,
}

impl View for Datagram {
    type V = Seq<u8>;

    closed spec fn view(&self) -> Seq<u8> {
        received_span(self.buffer@, self.size as nat)
    }
}

impl Datagram {
    #[verifier::type_invariant]
    spec fn fits(self) -> bool {
        self.size <= self.buffer@.len() == DATAGRAM_CAPACITY
    }

    /// Makes the datagram out of a receive buffer and the size that the
    /// receive reported. The buffer must be one of `receive_buffer`, by its
    /// length, and the size must lie within it; otherwise there is no
    /// datagram.
    pub fn new(buffer: Vec<u8>, size: usize) -> (made: Option<Datagram>)
        ensures
            made is Some <==> buffer@.len() == DATAGRAM_CAPACITY && size <= DATAGRAM_CAPACITY,
            made matches Some(datagram) ==> datagram@ == received_span(buffer@, size as nat),
    {
        if buffer.len() == DATAGRAM_CAPACITY && size <= DATAGRAM_CAPACITY {
            Some(Datagram { buffer, size })
        } else {
            None
        }
    }

    /// The number of bytes of the datagram.
    pub fn len(&self) -> (n: usize)
        ensures
            n == self@.len(),
            n <= DATAGRAM_CAPACITY,
    {
        proof {
            use_type_invariant(self);
        }
        self.size
    }

    /// The bytes of the datagram: what is sent to the destination.
    pub fn payload(&self) -> (bytes: &[u8])
        ensures
            bytes@ == self@,
            bytes@.len() <= DATAGRAM_CAPACITY,
    {
        proof {
            use_type_invariant(self);
        }
        slice_subrange(self.buffer.as_slice(), 0, self.size)
    }
}

/// The state of the datagram relay loop.
#[derive(Clone, Copy, Debug, PartialEq, Eq, Structural)]
pub enum DatagramLoop {
    /// The socket is not bound yet; the loop waits for the bind.
    Unbound,
    /// The loop waits for the next datagram.
    Receiving,
    /// The loop waits for the datagram it received last to be sent.
    Sending,
    /// The loop has ended.
    Stopped,
}

/// What the driver reports to the datagram relay loop.
#[derive(Debug)]
pub enum DatagramEvent<E> {
    /// The socket is bound.
    Bound,
    /// A datagram was received.
    Received(Datagram),
    /// The datagram was sent.
    Sent,
    /// The operation that the loop was waiting for failed.
    Failed(E),
}

/// What the datagram relay loop asks of its driver.
#[derive(Debug)]
pub enum DatagramAction<E> {
    /// Bind the socket to this endpoint.
    Bind(ListenEndpoint),
    /// Receive the next datagram into a fresh receive buffer.
    Receive,
    /// Send the payload of this datagram to the destination.
    Send(Datagram),
    /// End the loop with this fault.
    Stop(Fault<E>),
}

impl DatagramLoop {
    /// Whether `event` answers the operation that the loop is waiting for.
    pub open spec fn awaits<E>(self, event: DatagramEvent<E>) -> bool {
        match self {
            DatagramLoop::Unbound => event is Bound || event is Failed,
            DatagramLoop::Receiving => event is Received || event is Failed,
            DatagramLoop::Sending => event is Sent || event is Failed,
            DatagramLoop::Stopped => false,
        }
    }

    /// The next state and the next action, for each state and event.
    ///
    /// Every failure ends the loop with its error, and so does an event that
    /// the loop was not waiting for.
    pub open spec fn transition<E>(self, event: DatagramEvent<E>) -> (
        DatagramLoop,
        DatagramAction<E>,
    ) {
        match (self, event) {
            (DatagramLoop::Unbound, DatagramEvent::Bound) => (
                DatagramLoop::Receiving,
                DatagramAction::Receive,
            ),
            (DatagramLoop::Receiving, DatagramEvent::Received(datagram)) => (
                DatagramLoop::Sending,
                DatagramAction::Send(datagram),
            ),
            (DatagramLoop::Sending, DatagramEvent::Sent) => (
                DatagramLoop::Receiving,
                DatagramAction::Receive,
            ),
            (DatagramLoop::Unbound, DatagramEvent::Failed(error)) => (
                DatagramLoop::Stopped,
                DatagramAction::Stop(Fault::Io(error)),
            ),
            (DatagramLoop::Receiving, DatagramEvent::Failed(error)) => (
                DatagramLoop::Stopped,
                DatagramAction::Stop(Fault::Io(error)),
            ),
            (DatagramLoop::Sending, DatagramEvent::Failed(error)) => (
                DatagramLoop::Stopped,
                DatagramAction::Stop(Fault::Io(error)),
            ),
            _ => (DatagramLoop::Stopped, DatagramAction::Stop(Fault::OutOfTurn)),
        }
    }

    /// The state after the first `n` of `events`, starting from `self`.
    pub open spec fn state_after<E>(self, events: Seq<DatagramEvent<E>>, n: nat) -> DatagramLoop
        decreases n,
    {
        if n == 0 {
            self
        } else {
            self.state_after(events, (n - 1) as nat).transition(events[n - 1]).0
        }
    }

    /// The action with which the loop answers `events[i]`, starting from
    /// `self`.
    pub open spec fn action_at<E>(self, events: Seq<DatagramEvent<E>>, i: nat) -> DatagramAction<
        E,
    > {
        self.state_after(events, i).transition(events[i as int]).1
    }

    /// The loop before its first operation, and that operation: to bind the
    /// UDP loopback endpoint on `port`.
    pub fn start<E>(port: u16) -> (out: (DatagramLoop, DatagramAction<E>))
        ensures
            out.0 is Unbound,
            out.1 matches DatagramAction::Bind(endpoint) && endpoint.is_loopback(
                Protocol::Udp,
                port,
            ),
    {
        (DatagramLoop::Unbound, DatagramAction::Bind(ListenEndpoint::loopback(Protocol::Udp, port)))
    }

    /// Takes the outcome of the operation that the loop was waiting for and
    /// gives the next state and the next action.
    pub fn step<E>(self, event: DatagramEvent<E>) -> (out: (DatagramLoop, DatagramAction<E>))
        ensures
            out == self.transition(event),
    {
        match (self, event) {
            (DatagramLoop::Unbound, DatagramEvent::Bound) => (
                DatagramLoop::Receiving,
                DatagramAction::Receive,
            ),
            (DatagramLoop::Receiving, DatagramEvent::Received(datagram)) => (
                DatagramLoop::Sending,
                DatagramAction::Send(datagram),
            ),
            (DatagramLoop::Sending, DatagramEvent::Sent) => (
                DatagramLoop::Receiving,
                DatagramAction::Receive,
            ),
            (DatagramLoop::Unbound, DatagramEvent::Failed(error)) => (
                DatagramLoop::Stopped,
                DatagramAction::Stop(Fault::Io(error)),
            ),
            (DatagramLoop::Receiving, DatagramEvent::Failed(error)) => (
                DatagramLoop::Stopped,
                DatagramAction::Stop(Fault::Io(error)),
            ),
            (DatagramLoop::Sending, DatagramEvent::Failed(error)) => (
                DatagramLoop::Stopped,
                DatagramAction::Stop(Fault::Io(error)),
            ),
            _ => (DatagramLoop::Stopped, DatagramAction::Stop(Fault::OutOfTurn)),
        }
    }

    /// Whether the loop has ended.
    pub fn is_stopped(&self) -> (stopped: bool)
        ensures
            stopped == (*self is Stopped),
    {
        match self {
            DatagramLoop::Stopped => true,
            _ => false,
        }
    }
}

/// The events of a loop that binds and then relays `datagrams` in order, each
/// received and then sent.
pub open spec fn relayed<E>(datagrams: Seq<Datagram>) -> Seq<DatagramEvent<E>> {
    Seq::new(
        1 + 2 * datagrams.len(),
        |i: int|
            if i == 0 {
                DatagramEvent::Bound
            } else if i % 2 == 1 {
                DatagramEvent::Received(datagrams[(i - 1) / 2])
            } else {
                DatagramEvent::Sent
            },
    )
}

/// A datagram of at most `DATAGRAM_CAPACITY` bytes is relayed whole: the
/// bytes that its receive delivers, which are the bytes that are sent on, are
/// the datagram's own bytes, all of them and in their order.
pub proof fn lemma_datagram_fidelity(wire: Seq<u8>, buffer: Seq<u8>, size: nat)
    requires
        buffer.len() == DATAGRAM_CAPACITY,
        receives(wire, buffer, size),
        wire.len() <= DATAGRAM_CAPACITY,
    ensures
        received_span(buffer, size) == wire,
{
}

/// A datagram of more than `DATAGRAM_CAPACITY` bytes is relayed cut to its
/// first `DATAGRAM_CAPACITY` bytes.
pub proof fn lemma_truncation_boundary(wire: Seq<u8>, buffer: Seq<u8>, size: nat)
    requires
        buffer.len() == DATAGRAM_CAPACITY,
        receives(wire, buffer, size),
        wire.len() > DATAGRAM_CAPACITY,
    ensures
        received_span(buffer, size) == wire.take(DATAGRAM_CAPACITY as int),
        received_span(buffer, size).len() == DATAGRAM_CAPACITY,
{
}

/// Nothing is sent but what was just received: whenever the loop asks for a
/// datagram to be sent, it was waiting for a datagram, and the event that it
/// answers delivered that very datagram.
pub proof fn lemma_send_answers_receive<E>(
    start: DatagramLoop,
    events: Seq<DatagramEvent<E>>,
    i: nat,
)
    requires
        i < events.len(),
        start.action_at(events, i) is Send,
    ensures
        start.state_after(events, i) is Receiving,
        events[i as int] == DatagramEvent::<E>::Received(start.action_at(events, i)->Send_0),
        start.state_after(events, i + 1) is Sending,
{
}

/// Every datagram is sent exactly once, and in the order of arrival: a loop
/// that receives `datagrams` one after the other answers the arrival of each
/// by asking for that datagram to be sent, and the completion of each send by
/// asking for the next datagram.
pub proof fn lemma_every_datagram_is_sent_once<E>(datagrams: Seq<Datagram>, k: nat)
    requires
        k < datagrams.len(),
    ensures
        ({
            let events = relayed::<E>(datagrams);
            let start = DatagramLoop::Unbound;
            &&& start.state_after(events, 2 * k + 1) is Receiving
            &&& start.action_at(events, 2 * k + 1) == DatagramAction::<E>::Send(datagrams[k as int])
            &&& start.action_at(events, 2 * k + 2) == DatagramAction::<E>::Receive
            &&& start.state_after(events, 2 * k + 3) is Receiving
        }),
    decreases k,
{
    if k == 0 {
        assert(DatagramLoop::Unbound.state_after(relayed::<E>(datagrams), 0) is Unbound);
    } else {
        lemma_every_datagram_is_sent_once::<E>(datagrams, (k - 1) as nat);
    }
}

/// The loop is alive exactly as long as every event answers the operation it
/// was waiting for and none is a failure: the first failure to bind, to
/// receive or to send ends it.
pub proof fn lemma_alive_until_first_failure<E>(
    start: DatagramLoop,
    events: Seq<DatagramEvent<E>>,
    n: nat,
)
    requires
        n <= events.len(),
    ensures
        start.state_after(events, n) !is Stopped <==> start !is Stopped && forall|i: nat|
            i < n ==> (#[trigger] start.state_after(events, i)).awaits(events[i as int])
                && events[i as int] !is Failed,
    decreases n,
{
    if n > 0 {
        lemma_alive_until_first_failure(start, events, (n - 1) as nat);
    }
}

/// A failure ends the loop with the error of the failed operation, whatever
/// the loop was waiting for.
pub proof fn lemma_failure_is_terminal<E>(state: DatagramLoop, error: E)
    requires
        state !is Stopped,
    ensures
        state.transition(DatagramEvent::Failed(error)) == (
            DatagramLoop::Stopped,
            DatagramAction::Stop(Fault::Io(error)),
        ),
{
}

/// Once the loop has stopped it stays stopped, and answers every further
/// event by stopping again.
pub proof fn lemma_stopped_is_final<E>(
    start: DatagramLoop,
    events: Seq<DatagramEvent<E>>,
    i: nat,
    j: nat,
)
    requires
        start.state_after(events, i) is Stopped,
        i <= j < events.len(),
    ensures
        start.state_after(events, j) is Stopped,
        start.action_at(events, j) == DatagramAction::<E>::Stop(Fault::OutOfTurn),
        start.state_after(events, j + 1) is Stopped,
    decreases j - i,
{
    if i < j {
        lemma_stopped_is_final(start, events, i, (j - 1) as nat);
    }
}

} // verus!
