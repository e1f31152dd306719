//! The TCP server session: one listening socket, one accept worker, and the
//! registry of connected peers.

use crate::addr::Endpoint;
use crate::event::{
    debug_text, plain_event, recv_error_event, recv_error_line, sent_event, sent_line, Event,
    SendStep, Tag, Transport,
};
use crate::lifecycle::{Action, IoFailure, Lifecycle};
use crate::registry::{with_peers, without_peer, without_peers, PeerRegistry};
use crate::text::{decimal, decimal_string};
use vstd::prelude::*;
use vstd::string::{StrSliceExecFns, StringExecFns, StringSliceAdditionalSpecFns};

verus! {

/// What a TCP server session is, as a plain value.
pub struct TcpServerState {
    pub lifecycle: Lifecycle,
    pub peers: Seq<Endpoint>,
}

/// The action that closes each of `peers`, in their order.
pub open spec fn close_actions(peers: Seq<Endpoint>) -> Seq<Action> {
    Seq::new(peers.len(), |i: int| Action::ClosePeer(peers[i]))
}

/// The line for a server that listens on `local`.
pub open spec fn listening_line(local: Endpoint) -> Seq<char> {
    "TCP server listening on "@ + local.text()
}

/// The line for a server that could not be started.
pub open spec fn listen_failed_line(why: Seq<char>) -> Seq<char> {
    "TCP server failed to start: "@ + why
}

/// The line for a start of a server that runs already.
pub open spec fn server_running_line() -> Seq<char> {
    "TCP server already running"@
}

/// The line for a peer that connected.
pub open spec fn peer_connected_line(peer: Endpoint) -> Seq<char> {
    "[TCP SERVER] client connected: "@ + peer.text()
}

/// The line for a send to a peer that is not connected.
pub open spec fn no_such_peer_line(peer: Endpoint) -> Seq<char> {
    "error sending to "@ + peer.text() + ", no such client"@
}

impl TcpServerState {
    /// A server that was never started.
    pub open spec fn fresh() -> TcpServerState {
        TcpServerState { lifecycle: Lifecycle::fresh(), peers: Seq::empty() }
    }

    /// Whether the server is up: it listens and its worker runs.
    pub open spec fn up(self) -> bool {
        self.lifecycle.socket is Some && self.lifecycle.running
    }

    /// The server once it listens on `local` and accepts.
    pub open spec fn begun(self, local: Endpoint) -> TcpServerState {
        TcpServerState { lifecycle: self.lifecycle.opened(local).started(), ..self }
    }

    /// The server once it has been shut down: no worker, no peer, no socket.
    pub open spec fn closed(self) -> TcpServerState {
        TcpServerState { lifecycle: self.lifecycle.closed(), peers: Seq::empty() }
    }

    /// What shutting down asks of the caller, in order: stop the worker,
    /// close every peer, release the listening socket.
    pub open spec fn shutdown_actions(self) -> Seq<Action> {
        self.lifecycle.stop_actions() + close_actions(self.peers)
            + self.lifecycle.release_actions()
    }

    /// The server once the peers that arrived are in the registry and the
    /// peers that left are out of it.
    pub open spec fn polled(self, arrivals: Seq<Endpoint>, departures: Seq<Endpoint>) -> TcpServerState {
        TcpServerState {
            peers: without_peers(with_peers(self.peers, arrivals), departures),
            ..self
        }
    }

    /// The server once `peer` has been closed.
    pub open spec fn without(self, peer: Endpoint) -> TcpServerState {
        TcpServerState { peers: without_peer(self.peers, peer), ..self }
    }
}

/// Whether `peer` is among `list`.
pub fn listed(list: &Vec<Endpoint>, peer: Endpoint) -> (b: bool)
    ensures
        b == list@.contains(peer),
{
    let mut i: usize = 0;
    while i < list.len()
        invariant
            i <= list.len(),
            forall|j: int| 0 <= j < i ==> list@[j] != peer,
        decreases list.len() - i,
    {
        if list[i] == peer {
            return true;
        }
        i = i + 1;
    }
    false
}

/// The peers that a message goes to: those of `peers` that are among
/// `selected`, in the order of `peers`.
pub fn recipients(peers: &Vec<Endpoint>, selected: &Vec<Endpoint>) -> (v: Vec<Endpoint>)
    ensures
        v@ == peers@.filter(|p: Endpoint| selected@.contains(p)),
{
    let mut v: Vec<Endpoint> = Vec::new();
    let ghost chosen = |p: Endpoint| selected@.contains(p);
    let mut i: usize = 0;
    while i < peers.len()
        invariant
            i <= peers.len(),
            chosen == |p: Endpoint| selected@.contains(p),
            v@ == peers@.take(i as int).filter(chosen),
        decreases peers.len() - i,
    {
        proof {
            reveal(Seq::filter);
            assert(peers@.take(i + 1).drop_last() =~= peers@.take(i as int));
        }
        if listed(selected, peers[i]) {
            v.push(peers[i]);
        }
        i = i + 1;
    }
    proof {
        assert(peers@.take(peers@.len() as int) =~= peers@);
    }
    v
}

/// A TCP server session.
pub struct TcpServer {
    core: Lifecycle,
    registry: PeerRegistry,
}

impl View for TcpServer {
    type V = TcpServerState;

    closed spec fn view(&self) -> TcpServerState {
        TcpServerState { lifecycle: self.core, peers: self.registry@ }
    }
}

impl Default for TcpServer {
    /// A server that was never started.
    fn default() -> (s: TcpServer)
        ensures
            s@ == TcpServerState::fresh(),
    {
        TcpServer { core: Lifecycle::idle(), registry: PeerRegistry::new() }
    }
}

impl TcpServer {
    /// The session's invariant: a worker exists exactly while the flag is up,
    /// and only on a listening socket.
    #[verifier::type_invariant]
    spec fn sound(self) -> bool {
        self.core.wf()
    }

    /// Whether the server is up: it listens and its accept worker runs. The
    /// flag alone tells: it is never up without a listening socket.
    pub fn is_up(&self) -> (b: bool)
        ensures
            b == self@.up(),
            b == self@.lifecycle.running,
            self@.lifecycle.wf(),
    {
        proof {
            use_type_invariant(self);
        }
        self.core.socket.is_some() && self.core.is_up()
    }

    /// Takes in the outcome of binding and listening, and starts the accept
    /// worker. Returns the bound port as text, or nothing where the server did
    /// not start, and the line to report. On a port the caller raises the flag
    /// and spawns the worker; on nothing it drops the socket it made, if any.
    pub fn begin(&mut self, listening: Result<Endpoint, IoFailure>) -> (r: (Option<String>, Event))
        ensures
            old(self)@.lifecycle.running ==> {
                &&& r.0 is None
                &&& r.1.tag == Tag::Error
                &&& r.1.text@ == server_running_line()
                &&& final(self)@ == old(self)@
            },
            !old(self)@.lifecycle.running ==> match listening {
                Ok(local) => {
                    &&& r.0 is Some
                    &&& r.0->0@ == decimal(local.port as nat)
                    &&& r.1.tag == Tag::Info
                    &&& r.1.text@ == listening_line(local)
                    &&& final(self)@ == old(self)@.begun(local)
                },
                Err(e) => {
                    &&& r.0 is None
                    &&& r.1.tag == Tag::Error
                    &&& r.1.text@ == listen_failed_line(e.text@)
                    &&& final(self)@ == old(self)@
                },
            },
    {
        proof {
            use_type_invariant(&*self);
        }
        if self.core.is_up() {
            return (None, plain_event(Tag::Error, "TCP server already running"));
        }
        match listening {
            Ok(local) => {
                let mut core = self.core;
                core.open(local);
                let started = core.start();
                assert(started is Ok);
                self.core = core;
                let mut line = String::from_str("TCP server listening on ");
                line.append(local.to_text().as_str());
                (Some(decimal_string(local.port as u64)), Event { tag: Tag::Info, text: line })
            },
            Err(e) => {
                let mut line = String::from_str("TCP server failed to start: ");
                line.append(e.text.as_str());
                (None, Event { tag: Tag::Error, text: line })
            },
        }
    }

    /// The event, if any, for one outcome of the worker's accept: the peer
    /// that connected, nothing when the wait merely ran out, the error
    /// otherwise. Whatever the outcome, the worker goes on.
    pub fn accept_event(outcome: &Result<Endpoint, IoFailure>) -> (r: Option<Event>)
        ensures
            match *outcome {
                Ok(peer) => r is Some && r->0.tag == Tag::Info && r->0.text@
                    == peer_connected_line(peer),
                Err(e) => if e.transient() {
                    r is None
                } else {
                    r is Some && r->0.tag == Tag::Error && r->0.text@ == recv_error_line(e.text@)
                },
            },
    {
        match outcome {
            Ok(peer) => {
                let mut line = String::from_str("[TCP SERVER] client connected: ");
                line.append(peer.to_text().as_str());
                Some(Event { tag: Tag::Info, text: line })
            },
            Err(e) => {
                if e.is_transient() {
                    None
                } else {
                    Some(recv_error_event(e.text.as_str()))
                }
            },
        }
    }

    /// Brings the registry up to date: the peers that the worker accepted
    /// since the last call come in, in order, and the peers whose connection
    /// was found closed go out.
    pub fn poll_events(&mut self, arrivals: &Vec<Endpoint>, departures: &Vec<Endpoint>)
        ensures
            final(self)@ == old(self)@.polled(arrivals@, departures@),
    {
        proof {
            use_type_invariant(&*self);
        }
        let mut registry = PeerRegistry::new();
        std::mem::swap(&mut registry, &mut self.registry);
        let mut i: usize = 0;
        while i < arrivals.len()
            invariant
                i <= arrivals.len(),
                registry@ == with_peers(old(self).registry@, arrivals@.take(i as int)),
            decreases arrivals.len() - i,
        {
            proof {
                assert(arrivals@.take(i + 1).drop_last() =~= arrivals@.take(i as int));
            }
            registry.insert(arrivals[i]);
            i = i + 1;
        }
        proof {
            assert(arrivals@.take(arrivals@.len() as int) =~= arrivals@);
        }
        let ghost filled = registry@;
        let mut j: usize = 0;
        while j < departures.len()
            invariant
                j <= departures.len(),
                registry@ == without_peers(filled, departures@.take(j as int)),
            decreases departures.len() - j,
        {
            proof {
                assert(departures@.take(j + 1).drop_last() =~= departures@.take(j as int));
            }
            registry.remove(departures[j]);
            j = j + 1;
        }
        proof {
            assert(departures@.take(departures@.len() as int) =~= departures@);
        }
        self.registry = registry;
    }

    /// The connected peers as they are now, in the order in which they
    /// connected, each remote address once.
    pub fn clients(&self) -> (v: Vec<Endpoint>)
        ensures
            v@ == self@.peers,
            v@.no_duplicates(),
    {
        self.registry.snapshot()
    }

    /// Closes the peer with the address `peer` and takes it out of the
    /// registry. Nothing happens where no such peer is connected.
    pub fn close_client(&mut self, peer: Endpoint) -> (actions: Vec<Action>)
        ensures
            final(self)@ == old(self)@.without(peer),
            actions@ == if old(self)@.peers.contains(peer) {
                seq![Action::ClosePeer(peer)]
            } else {
                Seq::<Action>::empty()
            },
            !old(self)@.peers.contains(peer) ==> final(self)@ == old(self)@,
    {
        proof {
            use_type_invariant(&*self);
        }
        let mut actions: Vec<Action> = Vec::new();
        let mut registry = PeerRegistry::new();
        std::mem::swap(&mut registry, &mut self.registry);
        let ghost before = registry@;
        if registry.remove(peer) {
            actions.push(Action::ClosePeer(peer));
        } else {
            proof {
                crate::registry::lemma_absent_peer(before, peer);
            }
        }
        self.registry = registry;
        actions
    }

    /// Decides on a send of `msg` to the peer `peer`: to a connected peer the
    /// caller writes the bytes of `msg` and then calls `sent`; for any other
    /// address the refusal is reported. The peer stays in the registry
    /// whatever comes of the write.
    pub fn send_data(&self, msg: &str, peer: Endpoint) -> (r: SendStep)
        ensures
            self@.peers.contains(peer) ==> (r matches SendStep::Transmit { payload, to }
                && payload@ == msg.spec_bytes() && to@ == peer.text()),
            !self@.peers.contains(peer) ==> (r matches SendStep::Refused(e) && e.tag == Tag::Error
                && e.text@ == no_such_peer_line(peer)),
    {
        if self.registry.contains(peer) {
            SendStep::Transmit { payload: msg.as_bytes_vec(), to: peer.to_text() }
        } else {
            let mut line = String::from_str("error sending to ");
            line.append(peer.to_text().as_str());
            line.append(", no such client");
            SendStep::Refused(Event { tag: Tag::Error, text: line })
        }
    }

    /// The event for a send of `msg` to `peer` that went as `outcome` says.
    pub fn sent(msg: &str, peer: Endpoint, outcome: &Result<usize, IoFailure>) -> (e: Event)
        ensures
            e.tag == sent_line(Transport::TcpServer, debug_text(msg@), peer.text(), *outcome).0,
            e.text@ == sent_line(Transport::TcpServer, debug_text(msg@), peer.text(), *outcome).1,
    {
        let to = peer.to_text();
        sent_event(Transport::TcpServer, msg, to.as_str(), outcome)
    }

    /// Shuts the server down: the accept worker stops, every peer is closed
    /// and forgotten, the listening socket goes. The caller carries out the
    /// actions in order.
    pub fn disconnect(&mut self) -> (actions: Vec<Action>)
        ensures
            final(self)@ == old(self)@.closed(),
            actions@ == old(self)@.shutdown_actions(),
    {
        proof {
            use_type_invariant(&*self);
        }
        let had_socket = self.core.socket.is_some();
        let mut core = self.core;
        let mut actions = core.stop();
        core.socket = None;
        self.core = core;
        let mut registry = PeerRegistry::new();
        std::mem::swap(&mut registry, &mut self.registry);
        let peers = registry.drain();
        let ghost stop = actions@;
        let mut i: usize = 0;
        while i < peers.len()
            invariant
                i <= peers.len(),
                actions@ == stop + close_actions(peers@.take(i as int)),
            decreases peers.len() - i,
        {
            actions.push(Action::ClosePeer(peers[i]));
            proof {
                assert(actions@ =~= stop + close_actions(peers@.take(i + 1)));
            }
            i = i + 1;
        }
        proof {
            assert(peers@.take(peers@.len() as int) =~= peers@);
        }
        if had_socket {
            actions.push(Action::ReleaseSocket);
        }
        proof {
            assert(actions@ =~= old(self)@.shutdown_actions());
        }
        actions
    }
}

/// A server that was never started is not up, and shutting it down changes
/// nothing and asks nothing.
pub proof fn lemma_server_idle_disconnect_is_noop()
    ensures
        !TcpServerState::fresh().up(),
        TcpServerState::fresh().closed() == TcpServerState::fresh(),
        TcpServerState::fresh().shutdown_actions() == Seq::<Action>::empty(),
{
    assert(TcpServerState::fresh().shutdown_actions() =~= Seq::<Action>::empty());
}

/// A server that began is up. One that was shut down is down, has no worker,
/// no socket and no peer, and a second shutdown changes and asks nothing.
pub proof fn lemma_server_up_then_down(s: TcpServerState, local: Endpoint)
    ensures
        s.begun(local).up(),
        !s.closed().up(),
        !s.closed().lifecycle.worker,
        s.closed().peers.len() == 0,
        s.closed().closed() == s.closed(),
        s.closed().shutdown_actions() == Seq::<Action>::empty(),
        s.lifecycle.worker ==> s.shutdown_actions().contains(Action::JoinWorker),
{
    assert(s.closed().shutdown_actions() =~= Seq::<Action>::empty());
    if s.lifecycle.worker {
        assert(s.shutdown_actions()[1] == Action::JoinWorker);
    }
}

/// A shutdown closes every connected peer.
pub proof fn lemma_shutdown_closes_every_peer(s: TcpServerState, peer: Endpoint)
    requires
        s.peers.contains(peer),
    ensures
        s.shutdown_actions().contains(Action::ClosePeer(peer)),
{
    let i = choose|i: int| 0 <= i < s.peers.len() && s.peers[i] == peer;
    let k = s.lifecycle.stop_actions().len() + i;
    assert(s.shutdown_actions()[k] == close_actions(s.peers)[i]);
}

} // verus!
