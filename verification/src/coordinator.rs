//! The execution coordinator.
//!
//! The coordinator runs the TCP listener loop and the datagram relay loop as
//! the two top-level tasks of the forwarder. A protocol that is not served
//! gets a task all the same, one that is done at once and cleanly, so that
//! both tasks are joined in one way. The coordinator waits for the TCP task
//! first and for the UDP task after it. The first failure that it sees ends
//! the wait; the worker pool is then shut down, and that failure is the
//! result of the whole run. The run ends cleanly only if both tasks did.
//!
//! `F` is the type of a task's failure.

use crate::endpoint::ListenEndpoint;
use crate::features::Features;
use crate::features::Protocol;
use vstd::prelude::*;

verus! {

/// What a top-level task does.
#[derive(Clone, Copy, Debug, PartialEq, Eq)]
pub enum Task {
    /// Run the loop of the endpoint's protocol on that endpoint.
    Serve(ListenEndpoint),
    /// Do nothing and end cleanly at once: the protocol is not served, and
    /// no socket is bound for it.
    Idle,
}

/// The two top-level tasks.
#[derive(Clone, Copy, Debug, PartialEq, Eq)]
pub struct Schedule {
    /// The task of the TCP listener loop.
    pub tcp: Task,
    /// The task of the datagram relay loop.
    pub udp: Task,
}

impl Task {
    /// Whether this is the task for `protocol` that `features` and `port`
    /// call for: to serve the protocol's loopback endpoint on `port` if the
    /// protocol is served, and to idle if it is not.
    pub open spec fn is_planned(self, features: Features, protocol: Protocol, port: u16) -> bool {
        if features.enables(protocol) {
            self matches Task::Serve(endpoint) && endpoint.is_loopback(protocol, port)
        } else {
            self is Idle
        }
    }

    /// The task for `protocol` under `features`, listening on `port`.
    pub fn plan(features: Features, protocol: Protocol, port: u16) -> (task: Task)
        ensures
            task.is_planned(features, protocol, port),
    {
        if features.serves(protocol) {
            Task::Serve(ListenEndpoint::loopback(protocol, port))
        } else {
            Task::Idle
        }
    }
}

impl Schedule {
    /// The two tasks under `features`: both protocols listen on the same
    /// `port`.
    pub fn plan(features: Features, port: u16) -> (schedule: Schedule)
        ensures
            schedule.tcp.is_planned(features, Protocol::Tcp, port),
            schedule.udp.is_planned(features, Protocol::Udp, port),
    {
        Schedule {
            tcp: Task::plan(features, Protocol::Tcp, port),
            udp: Task::plan(features, Protocol::Udp, port),
        }
    }
}

/// The result of the whole run, from the results of the two tasks: the
/// failure of the TCP task if it failed, else that of the UDP task if that
/// one failed, else a clean end.
pub open spec fn joined<F>(tcp: Result<(), F>, udp: Result<(), F>) -> Result<(), F> {
    match tcp {
        Err(failure) => Err(failure),
        Ok(_) => udp,
    }
}

/// The state of the coordinator's wait.
#[derive(Clone, Copy, Debug, PartialEq, Eq, Structural)]
pub enum Coordinator {
    /// The coordinator waits for the TCP task.
    AwaitingTcp,
    /// The TCP task ended cleanly; the coordinator waits for the UDP task.
    AwaitingUdp,
    /// The wait is over and the pool has been told to shut down.
    Finished,
}

/// What the coordinator asks of its driver.
#[derive(Debug, PartialEq, Eq)]
pub enum CoordinatorAction<F> {
    /// Wait for the TCP task and report its result.
    AwaitTcp,
    /// Wait for the UDP task and report its result.
    AwaitUdp,
    /// Signal every worker of the pool to stop, join the workers, and end the
    /// run with this result.
    Shutdown(Result<(), F>),
    /// Nothing is left to do: the run has ended before.
    Rest,
}

impl Coordinator {
    /// The next state and the next action, for each state and each result of
    /// the task that the coordinator was waiting for.
    pub open spec fn transition<F>(self, resolved: Result<(), F>) -> (
        Coordinator,
        CoordinatorAction<F>,
    ) {
        match self {
            Coordinator::AwaitingTcp => match resolved {
                Ok(_) => (Coordinator::AwaitingUdp, CoordinatorAction::AwaitUdp),
                Err(failure) => (Coordinator::Finished, CoordinatorAction::Shutdown(Err(failure))),
            },
            Coordinator::AwaitingUdp => (Coordinator::Finished, CoordinatorAction::Shutdown(resolved)),
            Coordinator::Finished => (Coordinator::Finished, CoordinatorAction::Rest),
        }
    }

    /// The coordinator once both tasks are scheduled, and its first action:
    /// to wait for the TCP task.
    pub fn start<F>() -> (out: (Coordinator, CoordinatorAction<F>))
        ensures
            out.0 is AwaitingTcp,
            out.1 is AwaitTcp,
    {
        (Coordinator::AwaitingTcp, CoordinatorAction::AwaitTcp)
    }

    /// Takes the result of the task that the coordinator was waiting for and
    /// gives the next state and the next action.
    pub fn step<F>(self, resolved: Result<(), F>) -> (out: (Coordinator, CoordinatorAction<F>))
        ensures
            out == self.transition(resolved),
    {
        match self {
            Coordinator::AwaitingTcp => match resolved {
                Ok(_) => (Coordinator::AwaitingUdp, CoordinatorAction::AwaitUdp),
                Err(failure) => (Coordinator::Finished, CoordinatorAction::Shutdown(Err(failure))),
            },
            Coordinator::AwaitingUdp => (Coordinator::Finished, CoordinatorAction::Shutdown(resolved)),
            Coordinator::Finished => (Coordinator::Finished, CoordinatorAction::Rest),
        }
    }
}

/// The switches decide which sockets exist. Under the TCP switch alone the
/// UDP task idles and binds nothing; under the UDP switch alone the TCP task
/// does; with neither switch both tasks serve, on loopback endpoints with the
/// one port.
pub proof fn lemma_schedule_follows_switches(schedule: Schedule, features: Features, port: u16)
    requires
        schedule.tcp.is_planned(features, Protocol::Tcp, port),
        schedule.udp.is_planned(features, Protocol::Udp, port),
    ensures
        features.tcp && !features.udp ==> schedule.tcp is Serve && schedule.udp is Idle,
        features.udp && !features.tcp ==> schedule.udp is Serve && schedule.tcp is Idle,
        !features.tcp && !features.udp ==> schedule.tcp is Serve && schedule.udp is Serve
            && schedule.tcp->Serve_0.port == port && schedule.udp->Serve_0.port == port,
        schedule.tcp is Serve || schedule.udp is Serve,
        schedule.tcp matches Task::Serve(endpoint) ==> endpoint.is_loopback(Protocol::Tcp, port),
        schedule.udp matches Task::Serve(endpoint) ==> endpoint.is_loopback(Protocol::Udp, port),
{
}

/// A failure of the TCP task ends the run at once with that failure, whatever
/// the UDP task does or would have done.
pub proof fn lemma_tcp_failure_ends_the_run<F>(failure: F, udp: Result<(), F>)
    ensures
        Coordinator::AwaitingTcp.transition(Err::<(), F>(failure)) == (
            Coordinator::Finished,
            CoordinatorAction::Shutdown(joined(Err(failure), udp)),
        ),
{
}

/// When the TCP task ends cleanly the coordinator waits for the UDP task, and
/// then shuts the pool down with the result of both: clean only if both were.
pub proof fn lemma_run_ends_with_joined_result<F>(udp: Result<(), F>)
    ensures
        Coordinator::AwaitingTcp.transition(Ok::<(), F>(())) == (
            Coordinator::AwaitingUdp,
            CoordinatorAction::<F>::AwaitUdp,
        ),
        Coordinator::AwaitingUdp.transition(udp) == (
            Coordinator::Finished,
            CoordinatorAction::Shutdown(joined(Ok(()), udp)),
        ),
{
}

/// The run ends cleanly exactly when both tasks did; otherwise it ends with
/// the first failure in the order TCP, UDP.
pub proof fn lemma_joined_result<F>(tcp: Result<(), F>, udp: Result<(), F>)
    ensures
        joined(tcp, udp) is Ok <==> tcp is Ok && udp is Ok,
        tcp is Err ==> joined(tcp, udp) == tcp,
        tcp is Ok ==> joined(tcp, udp) == udp,
{
}

/// The pool is shut down once and no more: after the end of the run the
/// coordinator only rests.
pub proof fn lemma_shutdown_happens_once<F>(resolved: Result<(), F>)
    ensures
        Coordinator::Finished.transition(resolved) == (
            Coordinator::Finished,
            CoordinatorAction::<F>::Rest,
        ),
{
}

} // verus!
