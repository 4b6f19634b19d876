//! The TCP listener loop.
//!
//! The loop binds its listen socket once and then accepts clients for as long
//! as the process lives. For each accepted client it opens one connection to
//! the destination and hands the pair to a stream relay; then it accepts
//! again, whatever became of the clients before. A client whose destination
//! cannot be reached is dropped, and the loop goes on.
//!
//! The loop is written as a function from its state and the outcome of the
//! operation it was waiting for to its next state and the next thing to do.
//! The driver does the I/O: it performs each action and reports what happened
//! as the next event. `C` is the driver's type of an accepted client
//! connection, `D` that of a connection to the destination and `E` that of an
//! I/O error. The loop owns a client from its acceptance until it hands it
//! out again; it never looks inside any of the three.

use crate::endpoint::ListenEndpoint;
use crate::fault::Fault;
use crate::features::Protocol;
use vstd::prelude::*;

verus! {

/// The state of the listener loop.
#[derive(Debug, PartialEq, Eq)]
pub enum Listener<C> {
    /// The listen socket is not bound yet; the loop waits for the bind.
    Unbound,
    /// The loop waits for the next client.
    Accepting,
    /// The loop holds an accepted client and waits for its connection to the
    /// destination.
    Connecting(C),
    /// The loop has ended.
    Stopped,
}

/// What the driver reports to the listener loop.
#[derive(Debug, PartialEq, Eq)]
pub enum ListenerEvent<C, D, E> {
    /// The listen socket is bound.
    Bound,
    /// A client was accepted.
    Accepted(C),
    /// The connection to the destination is open.
    Connected(D),
    /// The operation that the loop was waiting for failed.
    Failed(E),
}

/// What the listener loop asks of its driver.
#[derive(Debug, PartialEq, Eq)]
pub enum ListenerAction<C, D, E> {
    /// Bind the listen socket to this endpoint.
    Bind(ListenEndpoint),
    /// Accept the next client.
    Accept,
    /// Open a new connection to the destination.
    Connect,
    /// Start a stream relay between `client` and `destination`, each owned by
    /// that relay alone, and accept the next client without waiting for it.
    Relay { client: C, destination: D },
    /// Report `error`, drop `client` without relaying, and accept the next
    /// client.
    Discard { client: C, error: E },
    /// End the loop with this fault.
    Stop(Fault<E>),
}

impl<C> Listener<C> {
    /// Whether `event` answers the operation that the loop is waiting for.
    pub open spec fn awaits<D, E>(self, event: ListenerEvent<C, D, E>) -> bool {
        match self {
            Listener::Unbound => event is Bound || event is Failed,
            Listener::Accepting => event is Accepted || event is Failed,
            Listener::Connecting(_) => event is Connected || event is Failed,
            Listener::Stopped => false,
        }
    }

    /// The next state and the next action, for each state and event.
    ///
    /// A failure to bind or to accept ends the loop with the error. A failure
    /// to connect costs the one client it was for. An event that the loop was
    /// not waiting for ends the loop.
    pub open spec fn transition<D, E>(self, event: ListenerEvent<C, D, E>) -> (
        Listener<C>,
        ListenerAction<C, D, E>,
    ) {
        match (self, event) {
            (Listener::Unbound, ListenerEvent::Bound) => (
                Listener::Accepting,
                ListenerAction::Accept,
            ),
            (Listener::Unbound, ListenerEvent::Failed(error)) => (
                Listener::Stopped,
                ListenerAction::Stop(Fault::Io(error)),
            ),
            (Listener::Accepting, ListenerEvent::Accepted(client)) => (
                Listener::Connecting(client),
                ListenerAction::Connect,
            ),
            (Listener::Accepting, ListenerEvent::Failed(error)) => (
                Listener::Stopped,
                ListenerAction::Stop(Fault::Io(error)),
            ),
            (Listener::Connecting(client), ListenerEvent::Connected(destination)) => (
                Listener::Accepting,
                ListenerAction::Relay { client, destination },
            ),
            (Listener::Connecting(client), ListenerEvent::Failed(error)) => (
                Listener::Accepting,
                ListenerAction::Discard { client, error },
            ),
            _ => (Listener::Stopped, ListenerAction::Stop(Fault::OutOfTurn)),
        }
    }

    /// The state after the first `n` of `events`, starting from `self`.
    pub open spec fn state_after<D, E>(self, events: Seq<ListenerEvent<C, D, E>>, n: nat) -> Listener<
        C,
    >
        decreases n,
    {
        if n == 0 {
            self
        } else {
            self.state_after(events, (n - 1) as nat).transition(events[n - 1]).0
        }
    }

    /// The action with which the loop answers `events[i]`, starting from
    /// `self`.
    pub open spec fn action_at<D, E>(
        self,
        events: Seq<ListenerEvent<C, D, E>>,
        i: nat,
    ) -> ListenerAction<C, D, E> {
        self.state_after(events, i).transition(events[i as int]).1
    }

    /// The loop before its first operation, and that operation: to bind the
    /// TCP loopback endpoint on `port`.
    pub fn start<D, E>(port: u16) -> (out: (Listener<C>, ListenerAction<C, D, E>))
        ensures
            out.0 is Unbound,
            out.1 matches ListenerAction::Bind(endpoint) && endpoint.is_loopback(
                Protocol::Tcp,
                port,
            ),
    {
        (Listener::Unbound, ListenerAction::Bind(ListenEndpoint::loopback(Protocol::Tcp, port)))
    }

    /// Takes the outcome of the operation that the loop was waiting for and
    /// gives the next state and the next action.
    pub fn step<D, E>(self, event: ListenerEvent<C, D, E>) -> (out: (
        Listener<C>,
        ListenerAction<C, D, E>,
    ))
        ensures
            out == self.transition(event),
    {
        match (self, event) {
            (Listener::Unbound, ListenerEvent::Bound) => (
                Listener::Accepting,
                ListenerAction::Accept,
            ),
            (Listener::Unbound, ListenerEvent::Failed(error)) => (
                Listener::Stopped,
                ListenerAction::Stop(Fault::Io(error)),
            ),
            (Listener::Accepting, ListenerEvent::Accepted(client)) => (
                Listener::Connecting(client),
                ListenerAction::Connect,
            ),
            (Listener::Accepting, ListenerEvent::Failed(error)) => (
                Listener::Stopped,
                ListenerAction::Stop(Fault::Io(error)),
            ),
            (Listener::Connecting(client), ListenerEvent::Connected(destination)) => (
                Listener::Accepting,
                ListenerAction::Relay { client, destination },
            ),
            (Listener::Connecting(client), ListenerEvent::Failed(error)) => (
                Listener::Accepting,
                ListenerAction::Discard { client, error },
            ),
            _ => (Listener::Stopped, ListenerAction::Stop(Fault::OutOfTurn)),
        }
    }

    /// Whether the loop has ended.
    pub fn is_stopped(&self) -> (stopped: bool)
        ensures
            stopped == (*self is Stopped),
    {
        match self {
            Listener::Stopped => true,
            _ => false,
        }
    }
}

/// What keeps the loop alive: the event answers the operation that the loop
/// was waiting for, and it is no failure to bind or to accept.
pub open spec fn harmless<C, D, E>(state: Listener<C>, event: ListenerEvent<C, D, E>) -> bool {
    state.awaits(event) && (event is Failed ==> state is Connecting)
}

/// The events of a listener that binds and then serves `clients` in order:
/// each client is accepted, and its connection to the destination ends as
/// `outcomes` says.
pub open spec fn served<C, D, E>(clients: Seq<C>, outcomes: Seq<Result<D, E>>) -> Seq<
    ListenerEvent<C, D, E>,
> {
    Seq::new(
        1 + 2 * clients.len(),
        |i: int|
            if i == 0 {
                ListenerEvent::Bound
            } else if i % 2 == 1 {
                ListenerEvent::Accepted(clients[(i - 1) / 2])
            } else {
                match outcomes[(i - 2) / 2] {
                    Ok(destination) => ListenerEvent::Connected(destination),
                    Err(error) => ListenerEvent::Failed(error),
                }
            },
    )
}

/// The loop stops exactly when an event is not harmless: at the first failure
/// to bind or to accept, or at the first event out of turn. In particular no
/// failure to connect, and no number of them, stops it.
pub proof fn lemma_alive_while_harmless<C, D, E>(
    start: Listener<C>,
    events: Seq<ListenerEvent<C, D, E>>,
    n: nat,
)
    requires
        n <= events.len(),
    ensures
        start.state_after(events, n) !is Stopped <==> start !is Stopped && forall|i: nat|
            i < n ==> harmless(#[trigger] start.state_after(events, i), events[i as int]),
    decreases n,
{
    if n > 0 {
        lemma_alive_while_harmless(start, events, (n - 1) as nat);
    }
}

/// Once the loop has stopped it stays stopped, and answers every further
/// event by stopping again.
pub proof fn lemma_stopped_is_final<C, D, E>(
    start: Listener<C>,
    events: Seq<ListenerEvent<C, D, E>>,
    i: nat,
    j: nat,
)
    requires
        start.state_after(events, i) is Stopped,
        i <= j < events.len(),
    ensures
        start.state_after(events, j) is Stopped,
        start.action_at(events, j) == ListenerAction::<C, D, E>::Stop(Fault::OutOfTurn),
        start.state_after(events, j + 1) is Stopped,
    decreases j - i,
{
    if i < j {
        lemma_stopped_is_final(start, events, i, (j - 1) as nat);
    }
}

/// A relay joins one client with one destination: the client that the loop
/// accepted last, and the destination that was connected for it. No relay is
/// started for anything else.
pub proof fn lemma_relay_joins_one_pair<C, D, E>(
    start: Listener<C>,
    events: Seq<ListenerEvent<C, D, E>>,
    i: nat,
)
    requires
        i < events.len(),
        start.action_at(events, i) is Relay,
    ensures
        ({
            let client = start.action_at(events, i)->Relay_client;
            let destination = start.action_at(events, i)->Relay_destination;
            &&& events[i as int] == ListenerEvent::<C, D, E>::Connected(destination)
            &&& start.state_after(events, i) == Listener::Connecting(client)
            &&& i == 0 ==> start == Listener::Connecting(client)
            &&& i > 0 ==> events[i - 1] == ListenerEvent::<C, D, E>::Accepted(client)
                && start.state_after(events, (i - 1) as nat) is Accepting
        }),
{
}

/// A failure to connect costs one client and no other: the loop drops that
/// client, accepts the next one, and relays it once its own connection to the
/// destination is open.
pub proof fn lemma_connect_failure_is_isolated<C, D, E>(
    start: Listener<C>,
    events: Seq<ListenerEvent<C, D, E>>,
    i: nat,
    dropped: C,
    error: E,
    client: C,
    destination: D,
)
    requires
        i + 2 < events.len(),
        start.state_after(events, i) == Listener::Connecting(dropped),
        events[i as int] == ListenerEvent::<C, D, E>::Failed(error),
        events[i as int + 1] == ListenerEvent::<C, D, E>::Accepted(client),
        events[i as int + 2] == ListenerEvent::<C, D, E>::Connected(destination),
    ensures
        start.action_at(events, i) == (ListenerAction::<C, D, E>::Discard { client: dropped, error }),
        start.state_after(events, i + 1) is Accepting,
        start.action_at(events, i + 1) == ListenerAction::<C, D, E>::Connect,
        start.action_at(events, i + 2) == (ListenerAction::<C, D, E>::Relay {
            client,
            destination,
        }),
        start.state_after(events, i + 3) is Accepting,
{
}

/// Clients are served one by one and independently: however many there are
/// and whatever became of the others, the loop asks for one connection to the
/// destination for each client, relays the client over that connection if it
/// opens, drops the client with the error if it does not, and is then ready
/// for the next client.
pub proof fn lemma_clients_are_served_independently<C, D, E>(
    clients: Seq<C>,
    outcomes: Seq<Result<D, E>>,
    k: nat,
)
    requires
        clients.len() == outcomes.len(),
        k < clients.len(),
    ensures
        ({
            let events = served(clients, outcomes);
            let start = Listener::<C>::Unbound;
            &&& start.state_after(events, 2 * k + 1) is Accepting
            &&& start.action_at(events, 2 * k + 1) == ListenerAction::<C, D, E>::Connect
            &&& start.action_at(events, 2 * k + 2) == match outcomes[k as int] {
                Ok(destination) => ListenerAction::<C, D, E>::Relay {
                    client: clients[k as int],
                    destination,
                },
                Err(error) => ListenerAction::<C, D, E>::Discard { client: clients[k as int], error },
            }
            &&& start.state_after(events, 2 * k + 3) is Accepting
        }),
    decreases k,
{
    if k == 0 {
        assert(Listener::<C>::Unbound.state_after(served(clients, outcomes), 0) is Unbound);
    } else {
        lemma_clients_are_served_independently(clients, outcomes, (k - 1) as nat);
    }
}

} // verus!
