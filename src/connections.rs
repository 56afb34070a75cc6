use std::collections::HashMap;
use std::collections::HashSet;
use vstd::prelude::*;
use vstd::std_specs::iter::IteratorSpec;

use crate::addr::{has_circuit, is_relayed, Addr};

verus! {

broadcast use vstd::std_specs::hash::group_hash_axioms;

/// The role a side plays on a connection.
#[derive(Clone, Copy, Debug, PartialEq, Eq, Structural)]
pub enum Endpoint {
    Dialer,
    Listener,
}

/// How a connection came about: dialed out to `address`, or accepted on
/// `local_addr` from `send_back_addr`.
#[derive(Debug, PartialEq, Eq)]
pub enum ConnectedPoint {
    Dialer { address: Addr, role_override: Endpoint },
    Listener { local_addr: Addr, send_back_addr: Addr },
}

/// Whether the connection runs through a relay circuit, judged by the
/// address it was dialed at or accepted on.
pub open spec fn point_relayed(p: ConnectedPoint) -> bool {
    match p {
        ConnectedPoint::Dialer { address, .. } => has_circuit(address@),
        ConnectedPoint::Listener { local_addr, .. } => has_circuit(local_addr@),
    }
}

/// Whether the connection is an outbound dial with no role override.
pub open spec fn plain_dial(p: ConnectedPoint) -> bool {
    p matches ConnectedPoint::Dialer { role_override: Endpoint::Dialer, .. }
}

impl ConnectedPoint {
    pub fn is_relayed(&self) -> (r: bool)
        ensures
            r == point_relayed(*self),
    {
        match self {
            ConnectedPoint::Dialer { address, .. } => is_relayed(address),
            ConnectedPoint::Listener { local_addr, .. } => is_relayed(local_addr),
        }
    }
}

/// Per-peer bookkeeping of open connections, and of those among them that
/// are relayed.
pub struct ConnectionTracker {
    connections: HashMap<u64, HashMap<u64, ConnectedPoint>>,
    relayed: HashMap<u64, HashSet<u64>>,
}

impl ConnectionTracker {
    /// Peer to its connections, each with how it came about.
    pub closed spec fn conns(&self) -> Map<u64, Map<u64, ConnectedPoint>> {
        self.connections@.map_values(|m: HashMap<u64, ConnectedPoint>| m@)
    }

    /// Peer to the set of its connections that are relayed.
    pub closed spec fn relayed_sets(&self) -> Map<u64, Set<u64>> {
        self.relayed@.map_values(|s: HashSet<u64>| s@)
    }

    /// The connections of `p`; empty for a peer without an entry.
    pub open spec fn conns_of(&self, p: u64) -> Map<u64, ConnectedPoint> {
        if self.conns().contains_key(p) {
            self.conns()[p]
        } else {
            Map::empty()
        }
    }

    /// The relayed connections of `p`; empty for a peer without an entry.
    pub open spec fn relayed_of(&self, p: u64) -> Set<u64> {
        if self.relayed_sets().contains_key(p) {
            self.relayed_sets()[p]
        } else {
            Set::empty()
        }
    }

    /// No entry is empty, and every relayed connection is a recorded one.
    pub open spec fn wf(&self) -> bool {
        &&& forall|p: u64| #[trigger]
            self.conns().contains_key(p) ==> self.conns()[p] != Map::<u64, ConnectedPoint>::empty()
        &&& forall|p: u64| #[trigger]
            self.relayed_sets().contains_key(p) ==> self.relayed_sets()[p] != Set::<u64>::empty()
                && self.relayed_sets()[p].finite()
        &&& forall|p: u64, c: u64| #[trigger]
            self.relayed_of(p).contains(c) ==> self.conns_of(p).contains_key(c)
    }

    /// A tracker with no peer.
    pub fn new() -> (r: ConnectionTracker)
        ensures
            r.wf(),
            r.conns() == Map::<u64, Map<u64, ConnectedPoint>>::empty(),
            r.relayed_sets() == Map::<u64, Set<u64>>::empty(),
    {
        let r = ConnectionTracker { connections: HashMap::new(), relayed: HashMap::new() };
        assert(r.conns() =~= Map::<u64, Map<u64, ConnectedPoint>>::empty());
        assert(r.relayed_sets() =~= Map::<u64, Set<u64>>::empty());
        r
    }

    /// Records an established connection; a relayed one also joins the
    /// peer's relayed set.
    pub fn record_established(&mut self, peer: u64, conn: u64, point: ConnectedPoint)
        requires
            old(self).wf(),
        ensures
            final(self).wf(),
            final(self).conns() == old(self).conns().insert(
                peer,
                old(self).conns_of(peer).insert(conn, point),
            ),
            point_relayed(point) ==> final(self).relayed_sets() == old(self).relayed_sets().insert(
                peer,
                old(self).relayed_of(peer).insert(conn),
            ),
            !point_relayed(point) ==> final(self).relayed_sets() == old(self).relayed_sets(),
    {
        let ghost pre = *self;
        let relayed = point.is_relayed();
        if relayed {
            let mut set = match self.relayed.remove(&peer) {
                Some(s) => s,
                None => HashSet::new(),
            };
            set.insert(conn);
            self.relayed.insert(peer, set);
            assert(self.relayed_sets() =~= pre.relayed_sets().insert(
                peer,
                pre.relayed_of(peer).insert(conn),
            ));
        }
        let mut inner = match self.connections.remove(&peer) {
            Some(m) => m,
            None => HashMap::new(),
        };
        inner.insert(conn, point);
        self.connections.insert(peer, inner);
        assert(self.conns() =~= pre.conns().insert(peer, pre.conns_of(peer).insert(conn, point)));
        proof {
            assert forall|p: u64| #[trigger] self.conns().contains_key(p) implies self.conns()[p]
                != Map::<u64, ConnectedPoint>::empty() by {
                if p == peer {
                    assert(self.conns()[p].contains_key(conn));
                }
            }
            assert forall|p: u64| #[trigger]
                self.relayed_sets().contains_key(p) implies self.relayed_sets()[p]
                != Set::<u64>::empty() && self.relayed_sets()[p].finite() by {
                if p == peer && relayed {
                    assert(self.relayed_sets()[p].contains(conn));
                    if pre.relayed_sets().contains_key(peer) {
                        assert(pre.relayed_sets()[peer].finite());
                    }
                    assert(pre.relayed_of(peer).finite());
                    assert(pre.relayed_of(peer).insert(conn).finite());
                    assert(self.relayed_sets()[p] == pre.relayed_of(peer).insert(conn));
                } else {
                    assert(pre.relayed_sets().contains_key(p));
                    assert(self.relayed_sets()[p] == pre.relayed_sets()[p]);
                }
            }
            assert forall|p: u64, c: u64| #[trigger]
                self.relayed_of(p).contains(c) implies self.conns_of(p).contains_key(c) by {
                if p == peer && c == conn {
                    assert(self.conns_of(p).contains_key(c));
                } else {
                    assert(self.relayed_of(p) == pre.relayed_of(p) || p == peer);
                    assert(pre.relayed_of(p).contains(c));
                    assert(pre.conns_of(p).contains_key(c));
                }
            }
        }
    }

    /// Forgets a closed connection; an entry left empty goes with it.
    pub fn record_closed(&mut self, peer: u64, conn: u64)
        requires
            old(self).wf(),
        ensures
            final(self).wf(),
            final(self).conns_of(peer) == old(self).conns_of(peer).remove(conn),
            final(self).relayed_of(peer) == old(self).relayed_of(peer).remove(conn),
            old(self).conns_of(peer).remove(conn) == Map::<u64, ConnectedPoint>::empty()
                ==> final(self).conns() == old(self).conns().remove(peer),
            old(self).conns_of(peer).remove(conn) != Map::<u64, ConnectedPoint>::empty()
                ==> final(self).conns() == old(self).conns().insert(
                peer,
                old(self).conns_of(peer).remove(conn),
            ),
            old(self).relayed_of(peer).remove(conn) == Set::<u64>::empty()
                ==> final(self).relayed_sets() == old(self).relayed_sets().remove(peer),
            old(self).relayed_of(peer).remove(conn) != Set::<u64>::empty()
                ==> final(self).relayed_sets() == old(self).relayed_sets().insert(
                peer,
                old(self).relayed_of(peer).remove(conn),
            ),
    {
        let ghost pre = *self;
        let ghost rc = pre.relayed_of(peer).remove(conn);
        let ghost cc = pre.conns_of(peer).remove(conn);
        if let Some(mut set) = self.relayed.remove(&peer) {
            proof {
                assert(pre.relayed_sets().contains_key(peer));
                assert(set@ == pre.relayed_sets()[peer]);
            }
            set.remove(&conn);
            assert(set@ == rc);
            if set.len() > 0 {
                self.relayed.insert(peer, set);
                assert(self.relayed_sets() =~= pre.relayed_sets().insert(peer, rc));
                assert(rc != Set::<u64>::empty()) by {
                    assert(rc.len() > 0);
                }
            } else {
                proof {
                    set@.lemma_len0_is_empty();
                }
                assert(self.relayed_sets() =~= pre.relayed_sets().remove(peer));
            }
        } else {
            assert(rc =~= Set::<u64>::empty());
            assert(self.relayed_sets() =~= pre.relayed_sets().remove(peer));
        }
        if let Some(mut inner) = self.connections.remove(&peer) {
            proof {
                assert(pre.conns().contains_key(peer));
                assert(inner@ == pre.conns()[peer]);
            }
            inner.remove(&conn);
            assert(inner@ == cc);
            if inner.len() > 0 {
                self.connections.insert(peer, inner);
                assert(self.conns() =~= pre.conns().insert(peer, cc));
                assert(cc != Map::<u64, ConnectedPoint>::empty()) by {
                    assert(cc.dom().len() > 0);
                    assert(cc.dom() != Map::<u64, ConnectedPoint>::empty().dom());
                }
            } else {
                proof {
                    inner@.dom().lemma_len0_is_empty();
                    assert(inner@ =~= Map::<u64, ConnectedPoint>::empty());
                }
                assert(self.conns() =~= pre.conns().remove(peer));
            }
        } else {
            assert(cc =~= Map::<u64, ConnectedPoint>::empty());
            assert(self.conns() =~= pre.conns().remove(peer));
        }
        proof {
            assert(self.relayed_of(peer) =~= rc);
            assert(self.conns_of(peer) =~= cc);
            assert forall|p: u64, c: u64| #[trigger]
                self.relayed_of(p).contains(c) implies self.conns_of(p).contains_key(c) by {
                assert(pre.relayed_of(p).contains(c));
            }
        }
    }

    /// Removes the relayed set of `peer` and hands out its members, each once.
    pub fn take_relayed(&mut self, peer: u64) -> (r: Vec<u64>)
        requires
            old(self).wf(),
        ensures
            final(self).wf(),
            r@.no_duplicates(),
            r@.to_set() == old(self).relayed_of(peer),
            final(self).relayed_sets() == old(self).relayed_sets().remove(peer),
            final(self).conns() == old(self).conns(),
    {
        let ghost pre = *self;
        let mut out: Vec<u64> = Vec::new();
        match self.relayed.remove(&peer) {
            Some(set) => {
                proof {
                    assert(pre.relayed_sets().contains_key(peer));
                    assert(set@ == pre.relayed_of(peer));
                }
                let keys = set.iter();
                let ghost g = keys.remaining();
                assert(g.unref().to_set() == set@);
                assert(g.no_duplicates());
                let ghost mut n: int = 0;
                for c in it: keys
                    invariant
                        it.seq() == g,
                        n == it.index(),
                        out@.len() == n,
                        forall|j: int| 0 <= j < n ==> out@[j] == *g[j],
                {
                    proof {
                        n = n + 1;
                    }
                    out.push(*c);
                }
                assert(out@ =~= g.unref());
                assert(out@.no_duplicates()) by {
                    assert forall|i: int, j: int|
                        0 <= i < out@.len() && 0 <= j < out@.len() && i != j implies out@[i]
                        != out@[j] by {
                        assert(g[i] != g[j]);
                    }
                }
            },
            None => {
                assert(out@.to_set() =~= pre.relayed_of(peer));
            },
        }
        assert(self.relayed_sets() =~= pre.relayed_sets().remove(peer));
        proof {
            assert forall|p: u64| #[trigger]
                self.relayed_sets().contains_key(p) implies self.relayed_sets()[p]
                != Set::<u64>::empty() && self.relayed_sets()[p].finite() by {
                assert(pre.relayed_sets().contains_key(p));
            }
            assert(self.conns() == pre.conns());
            assert forall|p: u64, c: u64| #[trigger]
                self.relayed_of(p).contains(c) implies self.conns_of(p).contains_key(c) by {
                assert(pre.relayed_of(p).contains(c));
            }
        }
        out
    }

    /// The address of some connection of `peer` that it dialed out with no
    /// role override, if it has one.
    pub fn find_dialer(&self, peer: u64) -> (r: Option<Addr>)
        ensures
            r matches Some(a) ==> exists|c: u64| #[trigger]
                self.conns_of(peer).contains_key(c) && plain_dial(self.conns_of(peer)[c])
                    && self.conns_of(peer)[c]->Dialer_address@ == a@,
            r is None ==> forall|c: u64| #[trigger]
                self.conns_of(peer).contains_key(c) ==> !plain_dial(self.conns_of(peer)[c]),
    {
        match self.connections.get(&peer) {
            Some(inner) => {
                assert(inner@ == self.conns_of(peer));
                let vals = inner.values();
                let ghost g = vals.remaining();
                assert(g.unref().to_set() == inner@.values());
                let ghost mut n: int = 0;
                for p in it: vals
                    invariant
                        it.seq() == g,
                        n == it.index(),
                        g.unref().to_set() == inner@.values(),
                        inner@ == self.conns_of(peer),
                        forall|j: int| 0 <= j < n ==> !plain_dial(*#[trigger] g[j]),
                {
                    proof {
                        assert(g.unref()[n] == *g[n]);
                        assert(g.unref().to_set().contains(*g[n]));
                        n = n + 1;
                    }
                    if let ConnectedPoint::Dialer { address, role_override: Endpoint::Dialer } = p {
                        return Some(address.duplicate());
                    }
                }
                proof {
                    assert forall|c: u64| #[trigger]
                        self.conns_of(peer).contains_key(c) implies !plain_dial(
                        self.conns_of(peer)[c],
                    ) by {
                        let v = inner@[c];
                        assert(inner@.values().contains(v));
                        assert(g.unref().to_set().contains(v));
                        let j = choose|j: int| 0 <= j < g.unref().len() && g.unref()[j] == v;
                        assert(*g[j] == v);
                    }
                }
                None
            },
            None => None,
        }
    }

    /// Whether `peer` has an entry.
    pub fn has_peer(&self, peer: u64) -> (r: bool)
        ensures
            r == self.conns().contains_key(peer),
    {
        self.connections.contains_key(&peer)
    }

    /// Whether `conn` is a recorded connection of `peer`.
    pub fn has_connection(&self, peer: u64, conn: u64) -> (r: bool)
        ensures
            r == self.conns_of(peer).contains_key(conn),
    {
        match self.connections.get(&peer) {
            Some(inner) => inner.contains_key(&conn),
            None => false,
        }
    }

    /// Whether `peer` has a relayed set.
    pub fn has_relayed_set(&self, peer: u64) -> (r: bool)
        ensures
            r == self.relayed_sets().contains_key(peer),
    {
        self.relayed.contains_key(&peer)
    }

    /// Whether `conn` is a relayed connection of `peer`.
    pub fn is_relayed_connection(&self, peer: u64, conn: u64) -> (r: bool)
        ensures
            r == self.relayed_of(peer).contains(conn),
    {
        match self.relayed.get(&peer) {
            Some(set) => set.contains(&conn),
            None => false,
        }
    }
}

} // verus!
