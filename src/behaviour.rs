use vstd::prelude::*;

use crate::addr::{has_circuit, has_direct_tag, is_holepunch_direct_addr, is_relayed, Addr};

verus! {

/// Which connection handler the routing table gets on a connection.
#[derive(Clone, Copy, Debug, PartialEq, Eq, Structural)]
pub enum HandlerChoice {
    /// The routing table's own handler.
    Real,
    /// A handler that does nothing: the routing table stays off the connection.
    Dummy,
}

/// The routing table's handler for an inbound connection accepted on
/// `local_addr`: none for a connection through a relay circuit.
pub fn routing_inbound_handler(local_addr: &Addr, remote_addr: &Addr) -> (r: HandlerChoice)
    ensures
        r == (if has_circuit(local_addr@) { HandlerChoice::Dummy } else { HandlerChoice::Real }),
{
    if is_relayed(local_addr) {
        HandlerChoice::Dummy
    } else {
        HandlerChoice::Real
    }
}

/// The routing table's handler for an outbound connection dialed at `addr`:
/// none for a connection through a relay circuit.
pub fn routing_outbound_handler(addr: &Addr) -> (r: HandlerChoice)
    ensures
        r == (if has_circuit(addr@) { HandlerChoice::Dummy } else { HandlerChoice::Real }),
{
    if is_relayed(addr) {
        HandlerChoice::Dummy
    } else {
        HandlerChoice::Real
    }
}

/// Whether an event from a connection handler reaches the routing table:
/// only one from its own handler does.
pub fn routing_forwards_handler_event(from: HandlerChoice) -> (r: bool)
    ensures
        r == (from == HandlerChoice::Real),
{
    match from {
        HandlerChoice::Real => true,
        HandlerChoice::Dummy => false,
    }
}

/// Whether a new external address candidate reaches reachability probing:
/// hole-punch addresses never do.
pub fn reachability_forwards_candidate(addr: &Addr) -> (r: bool)
    ensures
        r == !has_direct_tag(addr@),
{
    !is_holepunch_direct_addr(addr)
}

/// Which optional protocols run; fixed when the node is built.
#[derive(Clone, Copy, Debug, PartialEq, Eq, Structural)]
pub struct Capabilities {
    pub relay_server: bool,
    pub direct_upgrade: bool,
    pub routing_table: bool,
}

impl Capabilities {
    /// The protocols that the options turn on: a relay server when asked for,
    /// direct upgrade when a hole-punch port is given, the routing table when
    /// asked for.
    pub fn new(relay_service: bool, dcutr_port: Option<u16>, kad: bool) -> (r: Capabilities)
        ensures
            r.relay_server == relay_service,
            r.direct_upgrade == dcutr_port is Some,
            r.routing_table == kad,
    {
        Capabilities { relay_server: relay_service, direct_upgrade: dcutr_port.is_some(), routing_table: kad }
    }
}

} // verus!
