//! The UDP session: one bound socket, one receive worker, a broadcast switch.

use crate::addr::Endpoint;
use crate::event::{debug_text, plain_event, sent_event, sent_line, Event, SendStep, Tag, Transport};
use crate::lifecycle::{Action, IoFailure, Lifecycle, SessionError, READ_TIMEOUT_MS};
use crate::text::{decimal, decimal_string};
use vstd::prelude::*;
use vstd::string::{StrSliceExecFns, StringExecFns, StringSliceAdditionalSpecFns};

verus! {

/// The options that a fresh UDP socket gets before it is taken in.
#[derive(Clone, Copy, Debug, PartialEq, Eq, Structural)]
pub struct SocketOptions {
    pub broadcast: bool,
    pub read_timeout_ms: u64,
}

/// What a broadcast toggle asks of the caller.
#[derive(Clone, Copy, Debug, PartialEq, Eq, Structural)]
pub enum Toggle {
    /// No socket is bound: the flag is kept for the next bind.
    Recorded,
    /// A socket is bound: the caller sets the option on it now and reports
    /// how that went.
    Apply,
}

/// The line for a send without a socket.
pub open spec fn not_initialized_line() -> Seq<char> {
    "UDP socket not initialized"@
}

/// What a UDP session is, as a plain value.
pub struct UdpState {
    pub lifecycle: Lifecycle,
    pub broadcast: bool,
}

impl UdpState {
    /// A session that was never started, with broadcast off.
    pub open spec fn fresh() -> UdpState {
        UdpState { lifecycle: Lifecycle::fresh(), broadcast: false }
    }

    /// The options for the next socket.
    pub open spec fn options(self) -> SocketOptions {
        SocketOptions { broadcast: self.broadcast, read_timeout_ms: READ_TIMEOUT_MS }
    }

    /// The session once a socket bound to `local` has been taken in.
    pub open spec fn bound(self, local: Endpoint) -> UdpState {
        UdpState { lifecycle: self.lifecycle.opened(local), ..self }
    }

    /// The session once its worker has been started.
    pub open spec fn started(self) -> UdpState {
        UdpState { lifecycle: self.lifecycle.started(), ..self }
    }

    /// The session once its worker has been stopped.
    pub open spec fn stopped(self) -> UdpState {
        UdpState { lifecycle: self.lifecycle.stopped(), ..self }
    }

    /// The session once it has been shut down.
    pub open spec fn closed(self) -> UdpState {
        UdpState { lifecycle: self.lifecycle.closed(), ..self }
    }

    /// What a toggle of the broadcast flag asks of the caller.
    pub open spec fn toggle_step(self) -> Toggle {
        if self.lifecycle.socket is Some {
            Toggle::Apply
        } else {
            Toggle::Recorded
        }
    }

    /// The session once a toggle to `flag` has been asked for: the flag is
    /// kept only while no socket is bound.
    pub open spec fn toggled(self, flag: bool) -> UdpState {
        if self.lifecycle.socket is Some {
            self
        } else {
            UdpState { broadcast: flag, ..self }
        }
    }

    /// The session once the socket has taken (`done`) or refused the option.
    pub open spec fn applied(self, flag: bool, done: bool) -> UdpState {
        if done {
            UdpState { broadcast: flag, ..self }
        } else {
            self
        }
    }
}

/// A UDP session.
pub struct Udp {
    core: Lifecycle,
    bc: bool,
}

impl View for Udp {
    type V = UdpState;

    closed spec fn view(&self) -> UdpState {
        UdpState { lifecycle: self.core, broadcast: self.bc }
    }
}

impl Default for Udp {
    /// A session that was never started, with broadcast off.
    fn default() -> (s: Udp)
        ensures
            s@ == UdpState::fresh(),
    {
        Udp { core: Lifecycle::idle(), bc: false }
    }
}

impl Udp {
    /// The session's invariant: a worker exists exactly while the flag is up,
    /// and only on a bound socket.
    #[verifier::type_invariant]
    spec fn sound(self) -> bool {
        self.core.wf()
    }

    /// Whether the receive worker is running. A session that is up has a
    /// bound socket and a worker; one that is down has no worker.
    pub fn is_up(&self) -> (b: bool)
        ensures
            b == self@.lifecycle.running,
            self@.lifecycle.wf(),
    {
        proof {
            use_type_invariant(self);
        }
        self.core.is_up()
    }

    /// The local address of the bound socket, if there is one.
    pub fn local_addr(&self) -> (a: Option<Endpoint>)
        ensures
            a == self@.lifecycle.socket,
    {
        self.core.socket
    }

    /// The bound socket, by its local address, or the error for a session
    /// without one.
    pub fn socket_ref(&self) -> (r: Result<Endpoint, SessionError>)
        ensures
            match self@.lifecycle.socket {
                Some(local) => r == Ok::<Endpoint, SessionError>(local),
                None => r == Err::<Endpoint, SessionError>(SessionError::NotConnected),
            },
    {
        match self.core.socket {
            Some(local) => Ok(local),
            None => Err(SessionError::NotConnected),
        }
    }

    /// The options for the next socket: the wanted broadcast flag, and the
    /// receive timeout that lets the worker see a stop in time.
    pub fn socket_options(&self) -> (o: SocketOptions)
        ensures
            o == self@.options(),
    {
        SocketOptions { broadcast: self.bc, read_timeout_ms: READ_TIMEOUT_MS }
    }

    /// Takes in the outcome of binding a socket with `socket_options`: its
    /// local address, or the error. Returns the port that was bound, as text.
    pub fn connect(&mut self, bound: Result<Endpoint, IoFailure>) -> (r: Result<String, SessionError>)
        ensures
            match bound {
                Ok(local) => {
                    &&& r is Ok
                    &&& r->Ok_0@ == decimal(local.port as nat)
                    &&& final(self)@ == old(self)@.bound(local)
                },
                Err(e) => {
                    &&& r == Err::<String, SessionError>(SessionError::Bind(e))
                    &&& final(self)@ == old(self)@
                },
            },
    {
        proof {
            use_type_invariant(&*self);
        }
        match bound {
            Ok(local) => {
                let mut core = self.core;
                core.open(local);
                self.core = core;
                Ok(decimal_string(local.port as u64))
            },
            Err(e) => Err(SessionError::Bind(e)),
        }
    }

    /// Takes in the outcome of a bind, then starts the worker. On `Ok` the
    /// caller raises the flag and spawns the worker. In a session that is
    /// running already the new socket takes the place of the old one, nothing
    /// else changes, and the call fails with `AlreadyRunning`: no worker is to
    /// be spawned, and the one that runs is still the caller's to stop.
    pub fn connect_and_start(&mut self, bound: Result<Endpoint, IoFailure>) -> (r: Result<
        String,
        SessionError,
    >)
        ensures
            match bound {
                Ok(local) => if old(self)@.lifecycle.running {
                    &&& r == Err::<String, SessionError>(SessionError::AlreadyRunning)
                    &&& final(self)@ == old(self)@.bound(local)
                } else {
                    &&& r is Ok
                    &&& r->Ok_0@ == decimal(local.port as nat)
                    &&& final(self)@ == old(self)@.bound(local).started()
                },
                Err(e) => {
                    &&& r == Err::<String, SessionError>(SessionError::Bind(e))
                    &&& final(self)@ == old(self)@
                },
            },
    {
        let port = self.connect(bound)?;
        self.start()?;
        Ok(port)
    }

    /// Stops the worker and lets go of the socket. The caller carries out the
    /// actions in order.
    pub fn disconnect(&mut self) -> (actions: Vec<Action>)
        ensures
            final(self)@ == old(self)@.closed(),
            actions@ == old(self)@.lifecycle.stop_actions() + old(self)@.lifecycle.release_actions(),
    {
        proof {
            use_type_invariant(&*self);
        }
        let mut core = self.core;
        let actions = core.disconnect();
        self.core = core;
        actions
    }

    /// Starts the receive worker on the bound socket. On `Ok` the caller
    /// raises the flag and spawns the worker.
    pub fn start(&mut self) -> (r: Result<(), SessionError>)
        ensures
            old(self)@.lifecycle.running ==> r == Err::<(), SessionError>(
                SessionError::AlreadyRunning,
            ),
            !old(self)@.lifecycle.running && old(self)@.lifecycle.socket is None ==> r == Err::<
                (),
                SessionError,
            >(SessionError::NotBound),
            old(self)@.lifecycle.can_start() ==> r is Ok,
            r is Ok ==> final(self)@ == old(self)@.started(),
            r is Err ==> final(self)@ == old(self)@,
    {
        proof {
            use_type_invariant(&*self);
        }
        let mut core = self.core;
        let r = core.start();
        self.core = core;
        r
    }

    /// Stops the receive worker and keeps the socket. The caller carries out
    /// the actions in order.
    pub fn stop(&mut self) -> (actions: Vec<Action>)
        ensures
            final(self)@ == old(self)@.stopped(),
            actions@ == old(self)@.lifecycle.stop_actions(),
    {
        proof {
            use_type_invariant(&*self);
        }
        let mut core = self.core;
        let actions = core.stop();
        self.core = core;
        actions
    }

    /// Asks for broadcast to be switched to `flag`. Without a socket the flag
    /// is kept for the next bind. With one, nothing changes yet: the caller
    /// sets the option and calls `broadcast_applied`.
    pub fn toggle_broadcast(&mut self, flag: bool) -> (r: Toggle)
        ensures
            r == old(self)@.toggle_step(),
            final(self)@ == old(self)@.toggled(flag),
    {
        proof {
            use_type_invariant(&*self);
        }
        if self.core.socket.is_some() {
            Toggle::Apply
        } else {
            self.bc = flag;
            Toggle::Recorded
        }
    }

    /// Takes in how setting the broadcast option to `flag` on the bound socket
    /// went. On success the flag is the wanted one from now on; on failure the
    /// error is handed back and nothing is remembered.
    pub fn broadcast_applied(&mut self, flag: bool, outcome: Result<(), IoFailure>) -> (r: Result<
        (),
        SessionError,
    >)
        ensures
            final(self)@ == old(self)@.applied(flag, outcome is Ok),
            match outcome {
                Ok(_) => r is Ok,
                Err(e) => r == Err::<(), SessionError>(SessionError::Os(e)),
            },
    {
        proof {
            use_type_invariant(&*self);
        }
        match outcome {
            Ok(_) => {
                self.bc = flag;
                Ok(())
            },
            Err(e) => Err(SessionError::Os(e)),
        }
    }

    /// Whether broadcast is on, given what the socket itself reports: off
    /// without a socket, and off where the socket cannot say.
    pub fn broadcast_enabled(&self, reported: Option<bool>) -> (b: bool)
        ensures
            b == (self@.lifecycle.socket is Some && reported == Some(true)),
    {
        if self.core.socket.is_some() {
            match reported {
                Some(on) => on,
                None => false,
            }
        } else {
            false
        }
    }

    /// Decides on a send of `msg` to `to`: with a socket the caller transmits
    /// the bytes of `msg` and then calls `sent`; without one the refusal is
    /// reported.
    pub fn send_data_to(&self, msg: &str, to: &str) -> (r: SendStep)
        ensures
            self@.lifecycle.socket is Some ==> (r matches SendStep::Transmit { payload, to: dest }
                && payload@ == msg.spec_bytes() && dest@ == to@),
            self@.lifecycle.socket is None ==> (r matches SendStep::Refused(e) && e.tag
                == Tag::Error && e.text@ == not_initialized_line()),
    {
        if self.core.socket.is_some() {
            SendStep::Transmit { payload: msg.as_bytes_vec(), to: String::from_str(to) }
        } else {
            SendStep::Refused(plain_event(Tag::Error, "UDP socket not initialized"))
        }
    }

    /// The event for a send of `msg` to `to` that went as `outcome` says.
    pub fn sent(msg: &str, to: &str, outcome: &Result<usize, IoFailure>) -> (e: Event)
        ensures
            e.tag == sent_line(Transport::Udp, debug_text(msg@), to@, *outcome).0,
            e.text@ == sent_line(Transport::Udp, debug_text(msg@), to@, *outcome).1,
    {
        sent_event(Transport::Udp, msg, to, outcome)
    }
}

/// The port text that a bind returns names the port that the system gave:
/// no other port has that text, and a port other than zero never reads `0`.
pub proof fn lemma_port_text_names_port(s: UdpState, local: Endpoint, other: u16)
    ensures
        decimal(local.port as nat) == decimal(other as nat) ==> local.port == other,
        local.port != 0 ==> decimal(local.port as nat) != seq!['0'],
        s.bound(local).lifecycle.socket == Some(local),
{
    if decimal(local.port as nat) == decimal(other as nat) {
        crate::text::lemma_decimal_injective(local.port as nat, other as nat);
    }
    if local.port != 0 && decimal(local.port as nat) == seq!['0'] {
        assert(decimal(0) =~= seq!['0']);
        crate::text::lemma_decimal_injective(local.port as nat, 0);
    }
}

/// A broadcast flag set while no socket is bound is kept, and the next socket
/// gets it: in the options for the bind, and still after the bind.
pub proof fn lemma_toggle_unbound_reaches_next_bind(s: UdpState, flag: bool, local: Endpoint)
    requires
        s.lifecycle.socket is None,
    ensures
        s.toggle_step() == Toggle::Recorded,
        s.toggled(flag).options().broadcast == flag,
        s.toggled(flag).bound(local).broadcast == flag,
        s.toggled(flag).lifecycle == s.lifecycle,
{
}

/// A broadcast flag set while a socket is bound goes to the socket at once:
/// the session takes the flag when the socket took it, and keeps its old one
/// when the socket refused.
pub proof fn lemma_toggle_bound_applies_or_fails(s: UdpState, flag: bool)
    requires
        s.lifecycle.socket is Some,
    ensures
        s.toggle_step() == Toggle::Apply,
        s.toggled(flag) == s,
        s.applied(flag, true).broadcast == flag,
        s.applied(flag, false) == s,
{
}

/// Starting, stopping and shutting down leave the broadcast flag alone, and
/// the session goes through its life cycle as every session does.
pub proof fn lemma_udp_follows_lifecycle(s: UdpState, local: Endpoint)
    ensures
        UdpState::fresh().stopped() == UdpState::fresh(),
        UdpState::fresh().closed() == UdpState::fresh(),
        s.bound(local).started().lifecycle.running,
        !s.stopped().lifecycle.running && !s.stopped().lifecycle.worker,
        !s.closed().lifecycle.running && s.closed().lifecycle.socket is None,
        s.stopped().stopped() == s.stopped(),
        s.closed().closed() == s.closed(),
        s.started().broadcast == s.broadcast,
        s.stopped().broadcast == s.broadcast,
        s.closed().broadcast == s.broadcast,
{
}

} // verus!
