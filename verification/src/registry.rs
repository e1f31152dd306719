//! The peers of a TCP server: an ordered collection in which no remote
//! address occurs twice.

use crate::addr::Endpoint;
use vstd::prelude::*;

verus! {

/// `peers` with `peer` added at the end, unless it is there already.
pub open spec fn with_peer(peers: Seq<Endpoint>, peer: Endpoint) -> Seq<Endpoint> {
    if peers.contains(peer) {
        peers
    } else {
        peers.push(peer)
    }
}

/// `peers` without `peer`, the others in their order.
pub open spec fn without_peer(peers: Seq<Endpoint>, peer: Endpoint) -> Seq<Endpoint> {
    peers.filter(|q: Endpoint| q != peer)
}

/// `peers` with each of `arrivals` added in turn.
pub open spec fn with_peers(peers: Seq<Endpoint>, arrivals: Seq<Endpoint>) -> Seq<Endpoint>
    decreases arrivals.len(),
{
    if arrivals.len() == 0 {
        peers
    } else {
        with_peer(with_peers(peers, arrivals.drop_last()), arrivals.last())
    }
}

/// `peers` with each of `departures` taken out.
pub open spec fn without_peers(peers: Seq<Endpoint>, departures: Seq<Endpoint>) -> Seq<Endpoint>
    decreases departures.len(),
{
    if departures.len() == 0 {
        peers
    } else {
        without_peer(without_peers(peers, departures.drop_last()), departures.last())
    }
}

/// Taking a peer out of a collection in which it stands once leaves the rest:
/// one entry fewer, the peer gone, every other peer still there.
pub proof fn lemma_without_peer(peers: Seq<Endpoint>, peer: Endpoint)
    requires
        peers.no_duplicates(),
    ensures
        without_peer(peers, peer).no_duplicates(),
        !without_peer(peers, peer).contains(peer),
        forall|q: Endpoint| q != peer ==> (#[trigger] without_peer(peers, peer).contains(q)
            <==> peers.contains(q)),
        peers.contains(peer) ==> without_peer(peers, peer).len() == peers.len() - 1,
        !peers.contains(peer) ==> without_peer(peers, peer) == peers,
    decreases peers.len(),
{
    reveal(Seq::filter);
    let rest = without_peer(peers, peer);
    if peers.len() == 0 {
    } else {
        let front = peers.drop_last();
        let last = peers.last();
        lemma_without_peer(front, peer);
        let front_rest = without_peer(front, peer);
        assert(peers =~= front.push(last));
        assert(!front.contains(last)) by {
            if front.contains(last) {
                let i = choose|i: int| 0 <= i < front.len() && front[i] == last;
                assert(peers[i] == peers[peers.len() - 1]);
            }
        }
        assert forall|q: Endpoint| peers.contains(q) <==> (front.contains(q) || q == last) by {
            if peers.contains(q) {
                let i = choose|i: int| 0 <= i < peers.len() && peers[i] == q;
                if i < front.len() {
                    assert(front[i] == q);
                }
            }
            if front.contains(q) {
                let i = choose|i: int| 0 <= i < front.len() && front[i] == q;
                assert(peers[i] == q);
            }
            if q == last {
                assert(peers[peers.len() - 1] == q);
            }
        }
        if last != peer {
            assert(rest == front_rest.push(last));
            assert(!front_rest.contains(last));
            assert(rest.no_duplicates()) by {
                assert forall|i: int, j: int|
                    0 <= i < rest.len() && 0 <= j < rest.len() && i != j implies rest[i]
                    != rest[j] by {
                    if i < front_rest.len() && j < front_rest.len() {
                    } else if i < front_rest.len() {
                        assert(front_rest.contains(rest[i]));
                    } else {
                        assert(front_rest.contains(rest[j]));
                    }
                }
            }
            assert forall|q: Endpoint| #[trigger] rest.contains(q) <==> (front_rest.contains(q)
                || q == last) by {
                if rest.contains(q) {
                    let i = choose|i: int| 0 <= i < rest.len() && rest[i] == q;
                    if i < front_rest.len() {
                        assert(front_rest[i] == q);
                    }
                }
                if front_rest.contains(q) {
                    let i = choose|i: int| 0 <= i < front_rest.len() && front_rest[i] == q;
                    assert(rest[i] == q);
                }
                if q == last {
                    assert(rest[rest.len() - 1] == q);
                }
            }
            if !peers.contains(peer) {
                assert(rest =~= peers);
            }
        } else {
            assert(rest == front_rest);
            assert(front_rest == front);
        }
    }
}

/// Adding a peer keeps every address single, keeps the peers that were
/// there, in their order, and leaves the peer in the collection.
pub proof fn lemma_with_peer(peers: Seq<Endpoint>, peer: Endpoint)
    requires
        peers.no_duplicates(),
    ensures
        with_peer(peers, peer).no_duplicates(),
        with_peer(peers, peer).contains(peer),
        peers.is_prefix_of(with_peer(peers, peer)),
        forall|q: Endpoint| #[trigger]
            with_peer(peers, peer).contains(q) <==> (peers.contains(q) || q == peer),
{
    let more = with_peer(peers, peer);
    if peers.contains(peer) {
    } else {
        assert(more[more.len() - 1] == peer);
        assert forall|q: Endpoint| #[trigger] more.contains(q) <==> (peers.contains(q) || q
            == peer) by {
            if more.contains(q) {
                let i = choose|i: int| 0 <= i < more.len() && more[i] == q;
                if i < peers.len() {
                    assert(peers[i] == q);
                }
            }
            if peers.contains(q) {
                let i = choose|i: int| 0 <= i < peers.len() && peers[i] == q;
                assert(more[i] == q);
            }
        }
        assert forall|i: int, j: int|
            0 <= i < more.len() && 0 <= j < more.len() && i != j implies more[i] != more[j] by {
            if i < peers.len() && j < peers.len() {
            } else if i < peers.len() {
                assert(peers.contains(more[i]));
            } else {
                assert(peers.contains(more[j]));
            }
        }
    }
}

/// Taking out a peer that is not there changes nothing, repeats or not.
pub proof fn lemma_absent_peer(peers: Seq<Endpoint>, peer: Endpoint)
    requires
        !peers.contains(peer),
    ensures
        without_peer(peers, peer) == peers,
    decreases peers.len(),
{
    reveal(Seq::filter);
    if peers.len() > 0 {
        let front = peers.drop_last();
        assert(!front.contains(peer)) by {
            if front.contains(peer) {
                let i = choose|i: int| 0 <= i < front.len() && front[i] == peer;
                assert(peers[i] == peer);
            }
        }
        assert(peers.last() != peer) by {
            assert(peers[peers.len() - 1] == peers.last());
        }
        lemma_absent_peer(front, peer);
        assert(front.push(peers.last()) =~= peers);
    } else {
        assert(without_peer(peers, peer) =~= peers);
    }
}

/// Two different peers that connect to a server without peers make a
/// collection of exactly those two; closing one of them leaves the other
/// alone.
pub proof fn lemma_two_peers_then_close(a: Endpoint, b: Endpoint)
    requires
        a != b,
    ensures
        with_peer(with_peer(Seq::empty(), a), b) == seq![a, b],
        without_peer(seq![a, b], a) == seq![b],
        without_peer(seq![a, b], b) == seq![a],
{
    let none = Seq::<Endpoint>::empty();
    assert(with_peer(none, a) =~= seq![a]);
    assert(!seq![a].contains(b)) by {
        if seq![a].contains(b) {
            let i = choose|i: int| 0 <= i < seq![a].len() && seq![a][i] == b;
        }
    }
    assert(seq![a].push(b) =~= seq![a, b]);
    reveal_with_fuel(Seq::filter, 3);
    assert(seq![a, b].drop_last() =~= seq![a]);
    assert(seq![a].drop_last() =~= none);
    assert(without_peer(seq![a, b], a) =~= seq![b]);
    assert(without_peer(seq![a, b], b) =~= seq![a]);
}

/// Closing a peer that is not there changes nothing, and closing it twice is
/// closing it once.
pub proof fn lemma_close_twice(peers: Seq<Endpoint>, peer: Endpoint)
    requires
        peers.no_duplicates(),
    ensures
        without_peer(without_peer(peers, peer), peer) == without_peer(peers, peer),
{
    lemma_without_peer(peers, peer);
    lemma_without_peer(without_peer(peers, peer), peer);
}

/// The peers of a TCP server, in the order in which they connected.
pub struct PeerRegistry {
    peers: Vec<Endpoint>,
}

impl View for PeerRegistry {
    type V = Seq<Endpoint>;

    closed spec fn view(&self) -> Seq<Endpoint> {
        self.peers@
    }
}

impl PeerRegistry {
    /// No address occurs twice.
    #[verifier::type_invariant]
    spec fn single(self) -> bool {
        self.peers@.no_duplicates()
    }

    /// A registry without peers.
    pub fn new() -> (r: PeerRegistry)
        ensures
            r@ == Seq::<Endpoint>::empty(),
    {
        PeerRegistry { peers: Vec::new() }
    }

    /// The number of peers.
    pub fn len(&self) -> (n: usize)
        ensures
            n == self@.len(),
    {
        self.peers.len()
    }

    /// The place of `peer` in the registry, if it is there.
    pub fn position(&self, peer: Endpoint) -> (r: Option<usize>)
        ensures
            self@.no_duplicates(),
            match r {
                Some(i) => i < self@.len() && self@[i as int] == peer,
                None => !self@.contains(peer),
            },
    {
        proof {
            use_type_invariant(self);
        }
        let mut i: usize = 0;
        while i < self.peers.len()
            invariant
                i <= self.peers.len(),
                self.peers@.no_duplicates(),
                forall|j: int| 0 <= j < i ==> self.peers@[j] != peer,
            decreases self.peers.len() - i,
        {
            if self.peers[i] == peer {
                return Some(i);
            }
            i = i + 1;
        }
        None
    }

    /// Whether `peer` is in the registry.
    pub fn contains(&self, peer: Endpoint) -> (b: bool)
        ensures
            b == self@.contains(peer),
    {
        self.position(peer).is_some()
    }

    /// The peers as they are now, in order, each address once.
    pub fn snapshot(&self) -> (v: Vec<Endpoint>)
        ensures
            v@ == self@,
            v@.no_duplicates(),
    {
        proof {
            use_type_invariant(self);
        }
        self.peers.clone()
    }

    /// Adds `peer` at the end, unless it is there already. Says whether it
    /// was added.
    pub fn insert(&mut self, peer: Endpoint) -> (added: bool)
        ensures
            final(self)@ == with_peer(old(self)@, peer),
            added == !old(self)@.contains(peer),
    {
        proof {
            use_type_invariant(&*self);
            lemma_with_peer(self.peers@, peer);
        }
        if self.contains(peer) {
            false
        } else {
            let mut peers: Vec<Endpoint> = Vec::new();
            std::mem::swap(&mut peers, &mut self.peers);
            peers.push(peer);
            self.peers = peers;
            true
        }
    }

    /// Takes `peer` out, if it is there. Says whether it was.
    pub fn remove(&mut self, peer: Endpoint) -> (removed: bool)
        ensures
            final(self)@ == without_peer(old(self)@, peer),
            removed == old(self)@.contains(peer),
    {
        proof {
            use_type_invariant(&*self);
            lemma_without_peer(self.peers@, peer);
        }
        match self.position(peer) {
            Some(i) => {
                let mut peers: Vec<Endpoint> = Vec::new();
                std::mem::swap(&mut peers, &mut self.peers);
                proof {
                    lemma_remove_is_without(peers@, i as int);
                }
                peers.remove(i);
                self.peers = peers;
                true
            },
            None => false,
        }
    }

    /// Takes every peer out and hands them back in order.
    pub fn drain(&mut self) -> (v: Vec<Endpoint>)
        ensures
            final(self)@ == Seq::<Endpoint>::empty(),
            v@ == old(self)@,
            v@.no_duplicates(),
    {
        proof {
            use_type_invariant(&*self);
        }
        let mut v: Vec<Endpoint> = Vec::new();
        std::mem::swap(&mut v, &mut self.peers);
        v
    }
}

/// In a collection without repeats, cutting out the entry at `i` is taking
/// out the peer that stands there.
pub proof fn lemma_remove_is_without(peers: Seq<Endpoint>, i: int)
    requires
        peers.no_duplicates(),
        0 <= i < peers.len(),
    ensures
        peers.remove(i) == without_peer(peers, peers[i]),
    decreases peers.len(),
{
    reveal(Seq::filter);
    let peer = peers[i];
    let front = peers.drop_last();
    let last = peers.last();
    if i == peers.len() - 1 {
        assert(!front.contains(peer)) by {
            if front.contains(peer) {
                let j = choose|j: int| 0 <= j < front.len() && front[j] == peer;
                assert(peers[j] == peers[i]);
            }
        }
        lemma_without_peer(front, peer);
        assert(peers.remove(i) =~= front);
    } else {
        lemma_remove_is_without(front, i);
        assert(front[i] == peer);
        assert(last != peer);
        assert(peers.remove(i) =~= front.remove(i).push(last));
    }
}

} // verus!
