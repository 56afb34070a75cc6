use vstd::prelude::*;

use crate::addr::{contains_part, Addr, Protocol};
use crate::connections::{plain_dial, point_relayed, ConnectedPoint, ConnectionTracker};
use crate::table::{get_operand, parse_get, parse_put, put_operand};

verus! {

/// What the operator configured that the control loop reads.
pub struct NodeConfig {
    /// Listen through every relay that a peer turns out to be.
    pub listen_relayed: bool,
    /// The addresses dialed at start.
    pub connect: Vec<Addr>,
    /// An address to dial once a peer that was dialed at start identifies itself.
    pub peer: Option<Addr>,
    /// Whether the routing table is running.
    pub kad: bool,
    /// A `key:value` record to put on each routing-table update.
    pub kad_put: Option<Vec<char>>,
    /// A key to get on each routing-table update.
    pub kad_get: Option<Vec<char>>,
}

/// The events that the control loop acts on, with peers and connections
/// named by number.
pub enum NodeEvent {
    /// A peer identified itself; `relay_hop` tells whether it offers relaying.
    IdentifyReceived { peer: u64, relay_hop: bool },
    /// A reachability probe reported; nothing follows from it.
    Reachability,
    /// A direct connection to `peer` replaced the relayed path.
    DirectUpgradeSucceeded { peer: u64 },
    /// The routing table added or updated `peer`.
    RoutingUpdated { peer: u64 },
    ConnectionEstablished { peer: u64, connection: u64, endpoint: ConnectedPoint },
    ConnectionClosed { peer: u64, connection: u64 },
    /// Anything else; nothing follows from it.
    Other,
}

/// What the control loop asks the network to do.
#[derive(Debug, PartialEq, Eq)]
pub enum Command {
    ListenOn(Addr),
    Dial(Addr),
    Close(u64),
    PutRecord { key: Vec<char>, value: Vec<char>, peer: u64 },
    GetRecord { key: Vec<char> },
}

/// The address that a listen through the relay reached at `dialed` uses.
pub open spec fn circuit_of(dialed: Seq<Protocol>) -> Seq<Protocol> {
    dialed.push(Protocol::P2pCircuit)
}

/// Whether `addr` names `peer`.
pub open spec fn names_peer(addr: Seq<Protocol>, peer: u64) -> bool {
    exists|i: int| 0 <= i < addr.len() && #[trigger] addr[i] == Protocol::P2p(peer)
}

/// Whether the event ends relayed connection `c` of peer `p`.
pub open spec fn drops_relayed(e: NodeEvent, p: u64, c: u64) -> bool {
    match e {
        NodeEvent::ConnectionClosed { peer, connection } => peer == p && connection == c,
        NodeEvent::DirectUpgradeSucceeded { peer } => peer == p,
        _ => false,
    }
}

/// Whether a command writes to or reads from the routing table.
pub open spec fn is_table_op(c: Command) -> bool {
    c is PutRecord || c is GetRecord
}

/// The control loop's state: its configuration and connection bookkeeping.
pub struct Node {
    pub config: NodeConfig,
    pub tracker: ConnectionTracker,
}

impl Node {
    pub open spec fn wf(&self) -> bool {
        self.tracker.wf()
    }

    /// Whether identification of `peer` owes a listen through it as a relay.
    pub open spec fn relay_listen_owed(&self, peer: u64, relay_hop: bool) -> bool {
        relay_hop && self.config.listen_relayed && exists|c: u64| #[trigger]
            self.tracker.conns_of(peer).contains_key(c) && plain_dial(
                self.tracker.conns_of(peer)[c],
            )
    }

    /// Whether `cmd` is a listen through `peer` at the address of one of its
    /// plain outbound connections.
    pub open spec fn is_relay_listen(&self, peer: u64, cmd: Command) -> bool {
        cmd matches Command::ListenOn(a) && exists|c: u64| #[trigger]
            self.tracker.conns_of(peer).contains_key(c) && plain_dial(
                self.tracker.conns_of(peer)[c],
            ) && a@ == circuit_of(self.tracker.conns_of(peer)[c]->Dialer_address@)
    }

    /// Whether identification of `peer` owes a dial of the configured peer.
    pub open spec fn peer_dial_owed(&self, peer: u64) -> bool {
        self.config.peer is Some && exists|i: int|
            0 <= i < self.config.connect@.len() && names_peer(
                #[trigger] self.config.connect@[i]@,
                peer,
            )
    }

    pub open spec fn put_owed(&self) -> bool {
        self.config.kad && (self.config.kad_put matches Some(s) && put_operand(s@) is Some)
    }

    pub open spec fn get_owed(&self) -> bool {
        self.config.kad && (self.config.kad_get matches Some(s) && get_operand(s@) is Some)
    }

    /// A node with no connection.
    pub fn new(config: NodeConfig) -> (r: Node)
        ensures
            r.wf(),
            r.config == config,
            r.tracker.conns() == Map::<u64, Map<u64, ConnectedPoint>>::empty(),
            r.tracker.relayed_sets() == Map::<u64, Set<u64>>::empty(),
    {
        Node { config, tracker: ConnectionTracker::new() }
    }

    /// Whether one of the addresses dialed at start names `peer`.
    fn dialed_at_start(&self, peer: u64) -> (r: bool)
        ensures
            r == exists|i: int|
                0 <= i < self.config.connect@.len() && names_peer(
                    #[trigger] self.config.connect@[i]@,
                    peer,
                ),
    {
        let mut i: usize = 0;
        while i < self.config.connect.len()
            invariant
                i <= self.config.connect@.len(),
                forall|j: int|
                    0 <= j < i ==> !names_peer(#[trigger] self.config.connect@[j]@, peer),
            decreases self.config.connect@.len() - i,
        {
            if contains_part(&self.config.connect[i], Protocol::P2p(peer)) {
                assert(names_peer(self.config.connect@[i as int]@, peer));
                return true;
            }
            i = i + 1;
        }
        false
    }

    /// The commands that a peer's identification calls for.
    fn on_identify(&self, peer: u64, relay_hop: bool) -> (r: Vec<Command>)
        requires
            self.wf(),
        ensures
            r@.len() == (if self.relay_listen_owed(peer, relay_hop) { 1int } else { 0int }) + (
            if self.peer_dial_owed(peer) { 1int } else { 0int }),
            self.relay_listen_owed(peer, relay_hop) ==> self.is_relay_listen(peer, r@[0]),
            self.peer_dial_owed(peer) ==> (r@[r@.len() - 1] matches Command::Dial(a)
                && self.config.peer matches Some(pa) && a@ == pa@),
            forall|i: int|
                0 <= i < r@.len() && #[trigger] r@[i] is ListenOn ==> i == 0
                    && self.relay_listen_owed(peer, relay_hop),
            forall|i: int| 0 <= i < r@.len() ==> !is_table_op(#[trigger] r@[i]),
    {
        let mut cmds: Vec<Command> = Vec::new();
        if relay_hop && self.config.listen_relayed {
            match self.tracker.find_dialer(peer) {
                Some(a) => {
                    let listen = a.with(Protocol::P2pCircuit);
                    cmds.push(Command::ListenOn(listen));
                },
                None => {},
            }
        }
        match &self.config.peer {
            Some(pa) => {
                if self.dialed_at_start(peer) {
                    cmds.push(Command::Dial(pa.duplicate()));
                }
            },
            None => {},
        }
        cmds
    }

    /// Close requests for every relayed connection of `peer`, whose relayed
    /// set goes.
    fn on_direct_upgrade(&mut self, peer: u64) -> (r: Vec<Command>)
        requires
            old(self).wf(),
        ensures
            final(self).wf(),
            final(self).config == old(self).config,
            final(self).tracker.conns() == old(self).tracker.conns(),
            final(self).tracker.relayed_sets() == old(self).tracker.relayed_sets().remove(peer),
            forall|i: int| 0 <= i < r@.len() ==> (#[trigger] r@[i] matches Command::Close(c)
                && old(self).tracker.relayed_of(peer).contains(c)),
            forall|c: u64| #[trigger]
                old(self).tracker.relayed_of(peer).contains(c) ==> exists|i: int|
                    0 <= i < r@.len() && #[trigger] r@[i] == Command::Close(c),
            forall|i: int, j: int| 0 <= i < j < r@.len() ==> r@[i] != r@[j],
    {
        let ids = self.tracker.take_relayed(peer);
        let mut cmds: Vec<Command> = Vec::new();
        let mut i: usize = 0;
        while i < ids.len()
            invariant
                i <= ids@.len(),
                cmds@.len() == i,
                forall|j: int| 0 <= j < i ==> #[trigger] cmds@[j] == Command::Close(ids@[j]),
            decreases ids@.len() - i,
        {
            cmds.push(Command::Close(ids[i]));
            i = i + 1;
        }
        proof {
            assert forall|j: int| 0 <= j < cmds@.len() implies (#[trigger] cmds@[j] matches Command::Close(c)
                && old(self).tracker.relayed_of(peer).contains(c)) by {
                assert(ids@.to_set().contains(ids@[j]));
            }
            assert forall|c: u64| #[trigger]
                old(self).tracker.relayed_of(peer).contains(c) implies exists|j: int|
                    0 <= j < cmds@.len() && #[trigger] cmds@[j] == Command::Close(c) by {
                assert(ids@.to_set().contains(c));
                let j = choose|j: int| 0 <= j < ids@.len() && ids@[j] == c;
                assert(cmds@[j] == Command::Close(c));
            }
            assert forall|a: int, b: int| 0 <= a < b < cmds@.len() implies cmds@[a] != cmds@[b] by {
                assert(ids@[a] != ids@[b]);
            }
        }
        cmds
    }

    /// The record put and get that a routing-table update calls for.
    fn on_routing_updated(&self, peer: u64) -> (r: Vec<Command>)
        ensures
            r@.len() == (if self.put_owed() { 1int } else { 0int }) + (if self.get_owed() { 1int } else { 0int }),
            self.put_owed() ==> (r@[0] matches Command::PutRecord { key, value, peer: q }
                && self.config.kad_put matches Some(s) && put_operand(s@) == Some((key@, value@))
                && q == peer),
            self.get_owed() ==> (r@[r@.len() - 1] matches Command::GetRecord { key }
                && self.config.kad_get matches Some(s) && get_operand(s@) == Some(key@)),
    {
        let mut cmds: Vec<Command> = Vec::new();
        if self.config.kad {
            match &self.config.kad_put {
                Some(s) => match parse_put(s) {
                    Some((key, value)) => {
                        cmds.push(Command::PutRecord { key, value, peer });
                    },
                    None => {},
                },
                None => {},
            }
            match &self.config.kad_get {
                Some(s) => match parse_get(s) {
                    Some(key) => {
                        cmds.push(Command::GetRecord { key });
                    },
                    None => {},
                },
                None => {},
            }
        }
        cmds
    }

    /// Acts on one event: updates the bookkeeping and returns the commands
    /// it calls for, in order.
    pub fn handle_event(&mut self, event: NodeEvent) -> (r: Vec<Command>)
        requires
            old(self).wf(),
        ensures
            final(self).wf(),
            final(self).config == old(self).config,
            forall|i: int|
                0 <= i < r@.len() && is_table_op(#[trigger] r@[i]) ==> event is RoutingUpdated,
            forall|p: u64, c: u64|
                #![trigger final(self).tracker.relayed_of(p).contains(c)]
                old(self).tracker.relayed_of(p).contains(c) && !drops_relayed(event, p, c)
                    ==> final(self).tracker.relayed_of(p).contains(c),
            match event {
                NodeEvent::IdentifyReceived { peer, relay_hop } => {
                    &&& final(self).tracker == old(self).tracker
                    &&& r@.len() == (if old(self).relay_listen_owed(peer, relay_hop) { 1int } else { 0int }) + (
                    if old(self).peer_dial_owed(peer) { 1int } else { 0int })
                    &&& old(self).relay_listen_owed(peer, relay_hop) ==> old(self).is_relay_listen(peer, r@[0])
                    &&& old(self).peer_dial_owed(peer) ==> (r@[r@.len() - 1] matches Command::Dial(a)
                        && old(self).config.peer matches Some(pa) && a@ == pa@)
                    &&& forall|i: int|
                        0 <= i < r@.len() && #[trigger] r@[i] is ListenOn ==> i == 0
                            && old(self).relay_listen_owed(peer, relay_hop)
                },
                NodeEvent::DirectUpgradeSucceeded { peer } => {
                    &&& final(self).tracker.conns() == old(self).tracker.conns()
                    &&& final(self).tracker.relayed_sets() == old(self).tracker.relayed_sets().remove(peer)
                    &&& forall|i: int| 0 <= i < r@.len() ==> (#[trigger] r@[i] matches Command::Close(c)
                        && old(self).tracker.relayed_of(peer).contains(c))
                    &&& forall|c: u64| #[trigger]
                        old(self).tracker.relayed_of(peer).contains(c) ==> exists|i: int|
                            0 <= i < r@.len() && #[trigger] r@[i] == Command::Close(c)
                    &&& forall|i: int, j: int| 0 <= i < j < r@.len() ==> r@[i] != r@[j]
                },
                NodeEvent::RoutingUpdated { peer } => {
                    &&& final(self).tracker == old(self).tracker
                    &&& r@.len() == (if old(self).put_owed() { 1int } else { 0int }) + (
                    if old(self).get_owed() { 1int } else { 0int })
                    &&& old(self).put_owed() ==> (r@[0] matches Command::PutRecord { key, value, peer: q }
                        && old(self).config.kad_put matches Some(s) && put_operand(s@) == Some((key@, value@))
                        && q == peer)
                    &&& old(self).get_owed() ==> (r@[r@.len() - 1] matches Command::GetRecord { key }
                        && old(self).config.kad_get matches Some(s) && get_operand(s@) == Some(key@))
                },
                NodeEvent::ConnectionEstablished { peer, connection, endpoint } => {
                    &&& r@.len() == 0
                    &&& final(self).tracker.conns() == old(self).tracker.conns().insert(
                        peer,
                        old(self).tracker.conns_of(peer).insert(connection, endpoint),
                    )
                    &&& point_relayed(endpoint) ==> final(self).tracker.relayed_sets()
                        == old(self).tracker.relayed_sets().insert(
                        peer,
                        old(self).tracker.relayed_of(peer).insert(connection),
                    )
                    &&& !point_relayed(endpoint) ==> final(self).tracker.relayed_sets()
                        == old(self).tracker.relayed_sets()
                },
                NodeEvent::ConnectionClosed { peer, connection } => {
                    &&& r@.len() == 0
                    &&& final(self).tracker.conns_of(peer) == old(self).tracker.conns_of(peer).remove(connection)
                    &&& final(self).tracker.relayed_of(peer) == old(self).tracker.relayed_of(peer).remove(connection)
                    &&& old(self).tracker.conns_of(peer).remove(connection) == Map::<u64, ConnectedPoint>::empty()
                        ==> final(self).tracker.conns() == old(self).tracker.conns().remove(peer)
                    &&& old(self).tracker.conns_of(peer).remove(connection) != Map::<u64, ConnectedPoint>::empty()
                        ==> final(self).tracker.conns() == old(self).tracker.conns().insert(
                        peer,
                        old(self).tracker.conns_of(peer).remove(connection),
                    )
                },
                _ => r@.len() == 0 && final(self).tracker == old(self).tracker,
            },
    {
        match event {
            NodeEvent::IdentifyReceived { peer, relay_hop } => self.on_identify(peer, relay_hop),
            NodeEvent::DirectUpgradeSucceeded { peer } => self.on_direct_upgrade(peer),
            NodeEvent::RoutingUpdated { peer } => self.on_routing_updated(peer),
            NodeEvent::ConnectionEstablished { peer, connection, endpoint } => {
                self.tracker.record_established(peer, connection, endpoint);
                Vec::new()
            },
            NodeEvent::ConnectionClosed { peer, connection } => {
                self.tracker.record_closed(peer, connection);
                Vec::new()
            },
            NodeEvent::Reachability => Vec::new(),
            NodeEvent::Other => Vec::new(),
        }
    }
}

} // verus!
