//! The TCP client session: one connection, one receive worker.

use crate::addr::Endpoint;
use crate::event::{
    debug_text, plain_event, received_event, received_line, sent_event, sent_line, Datagram, Event,
    SendStep, Tag, Transport,
};
use crate::lifecycle::{Action, IoFailure, Lifecycle};
use vstd::prelude::*;
use vstd::string::{StrSliceExecFns, StringExecFns, StringSliceAdditionalSpecFns};

verus! {

/// The two ends of a connection that was made.
#[derive(Clone, Copy, Debug, PartialEq, Eq, Structural)]
pub struct Connection {
    pub local: Endpoint,
    pub remote: Endpoint,
}

/// What a TCP client session is, as a plain value.
pub struct TcpClientState {
    pub lifecycle: Lifecycle,
    pub remote: Option<Endpoint>,
}

/// The line for a connection that was made.
pub open spec fn connected_line(c: Connection) -> Seq<char> {
    "TCP client connected to "@ + c.remote.text() + " from "@ + c.local.text()
}

/// The line for a connection that could not be made.
pub open spec fn connect_failed_line(why: Seq<char>) -> Seq<char> {
    "TCP client failed to connect: "@ + why
}

/// The line for a start of a client that runs already.
pub open spec fn client_running_line() -> Seq<char> {
    "TCP client already running"@
}

/// The line for a send without a connection.
pub open spec fn not_connected_line() -> Seq<char> {
    "TCP client not connected"@
}

/// What was read from the connection to `remote`, with its sender.
pub open spec fn read_from(remote: Endpoint, outcome: Result<Vec<u8>, IoFailure>) -> Result<
    Datagram,
    IoFailure,
> {
    match outcome {
        Ok(bytes) => Ok(Datagram { bytes, from: remote }),
        Err(e) => Err(e),
    }
}

impl TcpClientState {
    /// A client that was never started.
    pub open spec fn fresh() -> TcpClientState {
        TcpClientState { lifecycle: Lifecycle::fresh(), remote: None }
    }

    /// Whether the client is up: it is connected and its worker runs.
    pub open spec fn up(self) -> bool {
        self.lifecycle.socket is Some && self.lifecycle.running
    }

    /// The client once the connection `c` stands and is read from.
    pub open spec fn begun(self, c: Connection) -> TcpClientState {
        TcpClientState {
            lifecycle: self.lifecycle.opened(c.local).started(),
            remote: Some(c.remote),
        }
    }

    /// The client once it has been shut down.
    pub open spec fn closed(self) -> TcpClientState {
        TcpClientState { lifecycle: self.lifecycle.closed(), remote: None }
    }

    /// What shutting down asks of the caller, in order.
    pub open spec fn shutdown_actions(self) -> Seq<Action> {
        self.lifecycle.stop_actions() + self.lifecycle.release_actions()
    }
}

/// A TCP client session.
pub struct TcpClient {
    core: Lifecycle,
    remote: Option<Endpoint>,
}

impl View for TcpClient {
    type V = TcpClientState;

    closed spec fn view(&self) -> TcpClientState {
        TcpClientState { lifecycle: self.core, remote: self.remote }
    }
}

impl Default for TcpClient {
    /// A client that was never started.
    fn default() -> (s: TcpClient)
        ensures
            s@ == TcpClientState::fresh(),
    {
        TcpClient { core: Lifecycle::idle(), remote: None }
    }
}

impl TcpClientState {
    /// The session's invariant: a worker exists exactly while the flag is up,
    /// and only on a connection; the remote end is known exactly while there
    /// is a connection.
    pub open spec fn wf(self) -> bool {
        &&& self.lifecycle.wf()
        &&& self.remote is Some <==> self.lifecycle.socket is Some
    }
}

impl TcpClient {
    #[verifier::type_invariant]
    spec fn sound(self) -> bool {
        self@.wf()
    }

    /// Whether the client is up: it is connected and its receive worker runs.
    /// The flag alone tells: it is never up without a connection.
    pub fn is_up(&self) -> (b: bool)
        ensures
            b == self@.up(),
            b == self@.lifecycle.running,
            self@.wf(),
    {
        proof {
            use_type_invariant(self);
        }
        self.core.socket.is_some() && self.core.is_up()
    }

    /// Takes in the outcome of connecting, and starts the receive worker.
    /// Returns the local address that the connection got, or nothing where the
    /// client did not start, and the line to report. On an address the caller
    /// raises the flag and spawns the worker; on nothing it drops the
    /// connection it made, if any.
    pub fn begin(&mut self, connected: Result<Connection, IoFailure>) -> (r: (
        Option<Endpoint>,
        Event,
    ))
        ensures
            old(self)@.lifecycle.running ==> {
                &&& r.0 is None
                &&& r.1.tag == Tag::Error
                &&& r.1.text@ == client_running_line()
                &&& final(self)@ == old(self)@
            },
            !old(self)@.lifecycle.running ==> match connected {
                Ok(c) => {
                    &&& r.0 == Some(c.local)
                    &&& r.1.tag == Tag::Info
                    &&& r.1.text@ == connected_line(c)
                    &&& final(self)@ == old(self)@.begun(c)
                },
                Err(e) => {
                    &&& r.0 is None
                    &&& r.1.tag == Tag::Error
                    &&& r.1.text@ == connect_failed_line(e.text@)
                    &&& final(self)@ == old(self)@
                },
            },
    {
        proof {
            use_type_invariant(&*self);
        }
        if self.core.is_up() {
            return (None, plain_event(Tag::Error, "TCP client already running"));
        }
        match connected {
            Ok(c) => {
                let mut core = self.core;
                core.open(c.local);
                let started = core.start();
                assert(started is Ok);
                *self = TcpClient { core, remote: Some(c.remote) };
                let mut line = String::from_str("TCP client connected to ");
                line.append(c.remote.to_text().as_str());
                line.append(" from ");
                line.append(c.local.to_text().as_str());
                (Some(c.local), Event { tag: Tag::Info, text: line })
            },
            Err(e) => {
                let mut line = String::from_str("TCP client failed to connect: ");
                line.append(e.text.as_str());
                (None, Event { tag: Tag::Error, text: line })
            },
        }
    }

    /// The event, if any, for one outcome of the worker's read from the
    /// connection to `remote`: the data, nothing when the wait merely ran out,
    /// the error otherwise. Whatever the outcome, the worker goes on.
    pub fn received(remote: Endpoint, outcome: Result<Vec<u8>, IoFailure>) -> (r: Option<Event>)
        ensures
            match received_line(Transport::TcpClient, read_from(remote, outcome)) {
                Some((tag, line)) => r is Some && r->0.tag == tag && r->0.text@ == line,
                None => r is None,
            },
    {
        let framed: Result<Datagram, IoFailure> = match outcome {
            Ok(bytes) => Ok(Datagram { bytes, from: remote }),
            Err(e) => Err(e),
        };
        received_event(Transport::TcpClient, &framed)
    }

    /// Decides on a send of `msg`: on a connection the caller writes the
    /// bytes of `msg` and then calls `sent`; without one the refusal is
    /// reported.
    pub fn send_data(&self, msg: &str) -> (r: SendStep)
        ensures
            self@.wf(),
            self@.lifecycle.socket is Some ==> (r matches SendStep::Transmit { payload, to }
                && payload@ == msg.spec_bytes() && to@ == self@.remote->0.text()),
            self@.lifecycle.socket is None ==> (r matches SendStep::Refused(e) && e.tag
                == Tag::Error && e.text@ == not_connected_line()),
    {
        proof {
            use_type_invariant(self);
        }
        match self.remote {
            Some(remote) => SendStep::Transmit {
                payload: msg.as_bytes_vec(),
                to: remote.to_text(),
            },
            None => SendStep::Refused(plain_event(Tag::Error, "TCP client not connected")),
        }
    }

    /// The event for a send of `msg` to `remote` that went as `outcome` says.
    pub fn sent(msg: &str, remote: Endpoint, outcome: &Result<usize, IoFailure>) -> (e: Event)
        ensures
            e.tag == sent_line(Transport::TcpClient, debug_text(msg@), remote.text(), *outcome).0,
            e.text@ == sent_line(Transport::TcpClient, debug_text(msg@), remote.text(), *outcome).1,
    {
        let to = remote.to_text();
        sent_event(Transport::TcpClient, msg, to.as_str(), outcome)
    }

    /// Shuts the client down: the receive worker stops, then the connection
    /// goes. The caller carries out the actions in order.
    pub fn disconnect(&mut self) -> (actions: Vec<Action>)
        ensures
            final(self)@ == old(self)@.closed(),
            actions@ == old(self)@.shutdown_actions(),
    {
        proof {
            use_type_invariant(&*self);
        }
        let mut core = self.core;
        let actions = core.disconnect();
        *self = TcpClient { core, remote: None };
        actions
    }
}

/// A client that was never started is not up, and shutting it down changes
/// nothing and asks nothing.
pub proof fn lemma_client_idle_disconnect_is_noop()
    ensures
        !TcpClientState::fresh().up(),
        TcpClientState::fresh().closed() == TcpClientState::fresh(),
        TcpClientState::fresh().shutdown_actions() == Seq::<Action>::empty(),
{
    assert(TcpClientState::fresh().shutdown_actions() =~= Seq::<Action>::empty());
}

/// A client that began is up. One that was shut down is down, has no worker
/// and no connection, and a second shutdown changes and asks nothing.
pub proof fn lemma_client_up_then_down(s: TcpClientState, c: Connection)
    ensures
        s.begun(c).up(),
        !s.closed().up(),
        !s.closed().lifecycle.worker,
        s.closed().closed() == s.closed(),
        s.closed().shutdown_actions() == Seq::<Action>::empty(),
        s.lifecycle.worker ==> s.shutdown_actions().contains(Action::JoinWorker),
{
    assert(s.closed().shutdown_actions() =~= Seq::<Action>::empty());
    if s.lifecycle.worker {
        assert(s.shutdown_actions()[1] == Action::JoinWorker);
    }
}

/// Every step keeps the client well-formed: a fresh client is, and beginning
/// and shutting down keep it so.
pub proof fn lemma_client_steps_keep_wf(s: TcpClientState, c: Connection)
    requires
        s.wf(),
        !s.lifecycle.running,
    ensures
        TcpClientState::fresh().wf(),
        s.begun(c).wf(),
        s.closed().wf(),
{
}

} // verus!
