//! The start/stop life cycle that every transport session shares: a socket
//! that is there or not, a running flag, and one background worker.

use crate::addr::Endpoint;
use vstd::prelude::*;

verus! {

/// How long a worker waits in one receive or accept before it looks at the
/// running flag again, in milliseconds.
pub const READ_TIMEOUT_MS: u64 = 100;

/// One thing the caller has to do to the real resources of a session. A
/// session hands these out in the order in which they must happen.
#[derive(Clone, Copy, Debug, PartialEq, Eq, Structural)]
pub enum Action {
    /// Clear the running flag, so that the worker leaves its loop.
    LowerFlag,
    /// Wait for the worker to end.
    JoinWorker,
    /// Shut down and drop the connection to one peer.
    ClosePeer(Endpoint),
    /// Drop the socket.
    ReleaseSocket,
}

/// The kind of an operating-system error, as far as the sessions tell kinds
/// apart.
#[derive(Clone, Copy, Debug, PartialEq, Eq, Structural)]
pub enum IoKind {
    WouldBlock,
    TimedOut,
    AddrInUse,
    AddrNotAvailable,
    InvalidInput,
    Other,
}

/// An operating-system error: its kind and its message.
#[derive(Clone, Debug, PartialEq, Eq)]
pub struct IoFailure {
    pub kind: IoKind,
    pub text: String,
}

impl IoFailure {
    /// Whether the error only says that nothing arrived in time.
    pub open spec fn transient(self) -> bool {
        self.kind == IoKind::WouldBlock || self.kind == IoKind::TimedOut
    }

    /// Whether the error only says that nothing arrived in time.
    pub fn is_transient(&self) -> (b: bool)
        ensures
            b == self.transient(),
    {
        self.kind == IoKind::WouldBlock || self.kind == IoKind::TimedOut
    }
}

/// Why a control call on a session failed.
#[derive(Clone, Debug, PartialEq, Eq)]
pub enum SessionError {
    /// The address could not be bound.
    Bind(IoFailure),
    /// The worker is running already.
    AlreadyRunning,
    /// There is no bound socket.
    NotBound,
    /// There is no connection.
    NotConnected,
    /// The operating system refused a socket option.
    Os(IoFailure),
}

/// The state of one session's life cycle. `socket` stands for the socket
/// handle by the local address it is bound to.
#[derive(Clone, Copy, Debug, PartialEq, Eq, Structural)]
pub struct Lifecycle {
    pub socket: Option<Endpoint>,
    pub running: bool,
    pub worker: bool,
}

impl Lifecycle {
    /// A worker exists exactly while the flag is up, and only on a socket.
    pub open spec fn wf(self) -> bool {
        &&& self.worker == self.running
        &&& self.running ==> self.socket is Some
    }

    /// The state of a session that was never started.
    pub open spec fn fresh() -> Lifecycle {
        Lifecycle { socket: None, running: false, worker: false }
    }

    /// The state once a socket bound to `local` has been taken in.
    pub open spec fn opened(self, local: Endpoint) -> Lifecycle {
        Lifecycle { socket: Some(local), ..self }
    }

    /// Whether a worker can be started.
    pub open spec fn can_start(self) -> bool {
        !self.running && self.socket is Some
    }

    /// The state once the worker has been started.
    pub open spec fn started(self) -> Lifecycle {
        Lifecycle { running: true, worker: true, ..self }
    }

    /// The state once the worker has been stopped and joined.
    pub open spec fn stopped(self) -> Lifecycle {
        Lifecycle { running: false, worker: false, ..self }
    }

    /// The state once the session has been shut down altogether.
    pub open spec fn closed(self) -> Lifecycle {
        Lifecycle { socket: None, running: false, worker: false }
    }

    /// What stopping asks of the caller: nothing without a worker.
    pub open spec fn stop_actions(self) -> Seq<Action> {
        if self.worker {
            seq![Action::LowerFlag, Action::JoinWorker]
        } else {
            seq![]
        }
    }

    /// What releasing the socket asks of the caller: nothing without one.
    pub open spec fn release_actions(self) -> Seq<Action> {
        if self.socket is Some {
            seq![Action::ReleaseSocket]
        } else {
            seq![]
        }
    }

    /// A session that was never started.
    pub fn idle() -> (s: Lifecycle)
        ensures
            s == Lifecycle::fresh(),
    {
        Lifecycle { socket: None, running: false, worker: false }
    }

    /// Whether the worker is running.
    pub fn is_up(&self) -> (b: bool)
        ensures
            b == self.running,
    {
        self.running
    }

    /// Takes in a socket bound to `local`, in place of any earlier one.
    pub fn open(&mut self, local: Endpoint)
        ensures
            *final(self) == old(self).opened(local),
    {
        self.socket = Some(local);
    }

    /// Starts the worker. On `Ok` the caller raises the flag and spawns it.
    pub fn start(&mut self) -> (r: Result<(), SessionError>)
        ensures
            old(self).running ==> r == Err::<(), SessionError>(SessionError::AlreadyRunning),
            !old(self).running && old(self).socket is None ==> r == Err::<(), SessionError>(
                SessionError::NotBound,
            ),
            old(self).can_start() ==> r is Ok,
            r is Ok ==> *final(self) == old(self).started(),
            r is Err ==> *final(self) == *old(self),
    {
        if self.running {
            return Err(SessionError::AlreadyRunning);
        }
        if self.socket.is_none() {
            return Err(SessionError::NotBound);
        }
        self.running = true;
        self.worker = true;
        Ok(())
    }

    /// Stops the worker and keeps the socket. The caller carries out the
    /// actions in order.
    pub fn stop(&mut self) -> (actions: Vec<Action>)
        ensures
            *final(self) == old(self).stopped(),
            actions@ == old(self).stop_actions(),
    {
        let mut actions: Vec<Action> = Vec::new();
        if self.worker {
            actions.push(Action::LowerFlag);
            actions.push(Action::JoinWorker);
        }
        self.running = false;
        self.worker = false;
        actions
    }

    /// Stops the worker, then lets go of the socket. The caller carries out
    /// the actions in order: the worker is joined before the socket goes.
    pub fn disconnect(&mut self) -> (actions: Vec<Action>)
        ensures
            *final(self) == old(self).closed(),
            actions@ == old(self).stop_actions() + old(self).release_actions(),
    {
        let mut actions = self.stop();
        if self.socket.is_some() {
            actions.push(Action::ReleaseSocket);
        }
        self.socket = None;
        actions
    }
}

/// Stopping or shutting down a session that was never started changes
/// nothing and asks nothing of the caller.
pub proof fn lemma_idle_stop_is_noop()
    ensures
        Lifecycle::fresh().stopped() == Lifecycle::fresh(),
        Lifecycle::fresh().closed() == Lifecycle::fresh(),
        Lifecycle::fresh().stop_actions() == Seq::<Action>::empty(),
        Lifecycle::fresh().stop_actions() + Lifecycle::fresh().release_actions() == Seq::<
            Action,
        >::empty(),
{
    assert(Lifecycle::fresh().stop_actions() + Lifecycle::fresh().release_actions() =~= Seq::<
        Action,
    >::empty());
}

/// A started session is up. A stopped or shut-down one is down, has no
/// worker left, and had its worker joined if there was one.
pub proof fn lemma_up_after_start_down_after_stop(s: Lifecycle)
    ensures
        s.started().running,
        !s.stopped().running && !s.stopped().worker,
        !s.closed().running && !s.closed().worker && s.closed().socket is None,
        s.worker ==> s.stop_actions().contains(Action::JoinWorker),
        s.worker ==> s.stop_actions()[0] == Action::LowerFlag,
{
    if s.worker {
        assert(s.stop_actions()[1] == Action::JoinWorker);
    }
}

/// Stopping twice is stopping once: the second call changes nothing and asks
/// nothing. The same holds of shutting down.
pub proof fn lemma_stop_idempotent(s: Lifecycle)
    ensures
        s.stopped().stopped() == s.stopped(),
        s.stopped().stop_actions() == Seq::<Action>::empty(),
        s.closed().closed() == s.closed(),
        s.closed().stop_actions() + s.closed().release_actions() == Seq::<Action>::empty(),
{
    assert(s.closed().stop_actions() + s.closed().release_actions() =~= Seq::<Action>::empty());
}

/// Every step keeps the life cycle well-formed; a start does so where it is
/// allowed.
pub proof fn lemma_steps_keep_wf(s: Lifecycle, local: Endpoint)
    requires
        s.wf(),
    ensures
        Lifecycle::fresh().wf(),
        s.opened(local).wf(),
        s.can_start() ==> s.started().wf(),
        s.stopped().wf(),
        s.closed().wf(),
{
}

/// Wherever shutting down both joins the worker and releases the socket, the
/// join comes first.
pub proof fn lemma_join_before_release(s: Lifecycle, i: int, j: int)
    requires
        0 <= i < (s.stop_actions() + s.release_actions()).len(),
        0 <= j < (s.stop_actions() + s.release_actions()).len(),
        (s.stop_actions() + s.release_actions())[i] == Action::JoinWorker,
        (s.stop_actions() + s.release_actions())[j] == Action::ReleaseSocket,
    ensures
        i < j,
{
}

} // verus!
