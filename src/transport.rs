use std::collections::HashMap;
use vstd::prelude::*;
use vstd::std_specs::iter::IteratorSpec;

use crate::addr::{
    address_translation, direct_addr_2_normal, has_direct_tag, is_holepunch_direct_addr,
    port_part, strip_direct, translated, Addr, Protocol,
};

verus! {

broadcast use vstd::std_specs::hash::group_hash_axioms;

/// Why the hole-punch transport turned an address down.
#[derive(Debug, PartialEq, Eq)]
pub enum TransportError {
    /// The address does not carry the direct-capability tag.
    MultiaddrNotSupported(Addr),
}

/// Whether some registered listener's address has `port` as its port component.
pub open spec fn port_registered_in(listened: Map<u64, Addr>, port: Protocol) -> bool {
    exists|a: Addr| #[trigger] listened.values().contains(a) && port_part(a@) == Some(port)
}

/// The outcome of a listen or dial request on `addr`: the untagged address to
/// hand to the plain transport, or a refusal of an untagged address.
pub open spec fn direct_target(addr: Seq<Protocol>, r: Result<Addr, TransportError>) -> bool {
    match r {
        Ok(a) => has_direct_tag(addr) && a@ == strip_direct(addr) && !has_direct_tag(a@),
        Err(TransportError::MultiaddrNotSupported(e)) => !has_direct_tag(addr) && e@ == addr,
    }
}

/// The translated address that a registry owes for `listen` and `observed`.
pub open spec fn translation_of(listened: Map<u64, Addr>, listen: Seq<Protocol>, observed: Seq<
    Protocol,
>) -> Option<Seq<Protocol>> {
    match port_part(listen) {
        Some(port) => if port_registered_in(listened, port) {
            match translated(listen, observed) {
                Some(t) => Some(t.push(Protocol::P2pWebRtcDirect)),
                None => None,
            }
        } else {
            None
        },
        None => None,
    }
}

fn port_registered(listened: &HashMap<u64, Addr>, port: Protocol) -> (r: bool)
    ensures
        r == port_registered_in(listened@, port),
{
    let mut found = false;
    let vals = listened.values();
    let ghost g = vals.remaining();
    assert(g.unref().to_set() == listened@.values());
    let ghost mut n: int = 0;
    for a in it: vals
        invariant
            it.seq() == g,
            n == it.index(),
            found == (exists|j: int| 0 <= j < it.index() && port_part(#[trigger] g[j]@) == Some(port)),
    {
        proof {
            n = n + 1;
        }
        if a.port() == Some(port) {
            found = true;
        }
    }
    proof {
        let s = g.unref();
        if found {
            let j = choose|j: int| 0 <= j < n && port_part(#[trigger] g[j]@) == Some(port);
            assert(s[j] == *g[j]);
            assert(s.to_set().contains(s[j]));
        } else {
            assert forall|a: Addr| #[trigger] listened@.values().contains(a) implies port_part(a@)
                != Some(port) by {
                assert(s.to_set().contains(a));
                let j = choose|j: int| 0 <= j < s.len() && s[j] == a;
                assert(*g[j] == a);
            }
        }
    }
    found
}

fn untag(addr: &Addr) -> (r: Result<Addr, TransportError>)
    ensures
        direct_target(addr@, r),
{
    if is_holepunch_direct_addr(addr) {
        Ok(direct_addr_2_normal(addr))
    } else {
        Err(TransportError::MultiaddrNotSupported(addr.duplicate()))
    }
}

/// The decisions of a transport that carries direct-capable addresses over a
/// plain stream transport, and the registry of the addresses it listens on.
pub struct HolePunchTransport {
    listened: HashMap<u64, Addr>,
}

impl HolePunchTransport {
    /// The registry: listener id to the untagged address it is bound to.
    pub closed spec fn listeners(&self) -> Map<u64, Addr> {
        self.listened@
    }

    /// A transport with no listener.
    pub fn new() -> (r: HolePunchTransport)
        ensures
            r.listeners() == Map::<u64, Addr>::empty(),
    {
        HolePunchTransport { listened: HashMap::new() }
    }

    /// Decides a listen request: the untagged address to bind, or a refusal.
    pub fn listen_on(&self, addr: &Addr) -> (r: Result<Addr, TransportError>)
        ensures
            direct_target(addr@, r),
    {
        untag(addr)
    }

    /// Records that listener `id` is bound to the untagged address `bound`.
    pub fn record_listener(&mut self, id: u64, bound: Addr)
        ensures
            final(self).listeners() == old(self).listeners().insert(id, bound),
    {
        self.listened.insert(id, bound);
    }

    /// Forgets listener `id`; tells whether it was registered.
    pub fn remove_listener(&mut self, id: u64) -> (r: bool)
        ensures
            final(self).listeners() == old(self).listeners().remove(id),
            r == old(self).listeners().contains_key(id),
    {
        self.listened.remove(&id).is_some()
    }

    /// Decides a dial: the untagged address to dial, or a refusal.
    pub fn dial(&self, addr: &Addr) -> (r: Result<Addr, TransportError>)
        ensures
            direct_target(addr@, r),
    {
        untag(addr)
    }

    /// Decides a dial in the listener role: the untagged address, or a refusal.
    pub fn dial_as_listener(&self, addr: &Addr) -> (r: Result<Addr, TransportError>)
        ensures
            direct_target(addr@, r),
    {
        untag(addr)
    }

    /// An externally reachable, tagged address for `listen` as seen by a remote
    /// peer at `observed`; only when `listen`'s port is that of a registered
    /// listener.
    pub fn address_translation(&self, listen: &Addr, observed: &Addr) -> (r: Option<Addr>)
        ensures
            r matches Some(a) ==> translation_of(self.listeners(), listen@, observed@) == Some(a@)
                && has_direct_tag(a@),
            r is None ==> translation_of(self.listeners(), listen@, observed@) is None,
            port_part(listen@) is None ==> r is None,
            (port_part(listen@) matches Some(p) && !port_registered_in(self.listeners(), p))
                ==> r is None,
    {
        match listen.port() {
            Some(port) => {
                if port_registered(&self.listened, port) {
                    match address_translation(listen, observed) {
                        Some(t) => {
                            let r = t.with(Protocol::P2pWebRtcDirect);
                            assert(r@[r@.len() - 1] == Protocol::P2pWebRtcDirect);
                            Some(r)
                        },
                        None => None,
                    }
                } else {
                    None
                }
            },
            None => None,
        }
    }
}

} // verus!
