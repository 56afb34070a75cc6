use vstd::prelude::*;

verus! {

/// One component of a multi-protocol network address.
///
/// Textual payloads (host names, components the node never inspects) are
/// carried as handles that the surrounding program assigns, so that every
/// component is a plain `Copy` value.
#[derive(Clone, Copy, Debug, PartialEq, Eq, Structural)]
pub enum Protocol {
    Ip4(u32),
    Ip6(u128),
    Dns(u64),
    Dns4(u64),
    Dns6(u64),
    Tcp(u16),
    Udp(u16),
    P2p(u64),
    P2pCircuit,
    P2pWebRtcDirect,
    Other(u64),
}

/// A network address: a sequence of protocol components, outermost first.
#[derive(Debug, PartialEq, Eq)]
pub struct Addr {
    pub parts: Vec<Protocol>,
}

impl View for Addr {
    type V = Seq<Protocol>;

    open spec fn view(&self) -> Seq<Protocol> {
        self.parts@
    }
}

/// Whether a component names a host (an IP address or a DNS name).
pub open spec fn is_host(p: Protocol) -> bool {
    p is Ip4 || p is Ip6 || p is Dns || p is Dns4 || p is Dns6
}

/// Whether the address carries the direct-capability tag.
pub open spec fn has_direct_tag(s: Seq<Protocol>) -> bool {
    exists|i: int| 0 <= i < s.len() && #[trigger] s[i] == Protocol::P2pWebRtcDirect
}

/// Whether the address traverses a relay circuit.
pub open spec fn has_circuit(s: Seq<Protocol>) -> bool {
    exists|i: int| 0 <= i < s.len() && #[trigger] s[i] == Protocol::P2pCircuit
}

/// The address with every direct-capability tag removed, order kept.
pub open spec fn strip_direct(s: Seq<Protocol>) -> Seq<Protocol>
    decreases s.len(),
{
    if s.len() == 0 {
        s
    } else {
        let r = strip_direct(s.drop_last());
        if s.last() == Protocol::P2pWebRtcDirect {
            r
        } else {
            r.push(s.last())
        }
    }
}

/// The component after the host, which carries the port on a transport address.
pub open spec fn port_part(s: Seq<Protocol>) -> Option<Protocol> {
    if s.len() > 1 {
        Some(s[1])
    } else {
        None
    }
}

/// Address translation: the host of `local` replaced by the host that a
/// remote peer observed, when both addresses start with a host.
pub open spec fn translated(local: Seq<Protocol>, observed: Seq<Protocol>) -> Option<
    Seq<Protocol>,
> {
    if local.len() > 0 && is_host(local[0]) && observed.len() > 0 && is_host(observed[0]) {
        Some(local.update(0, observed[0]))
    } else {
        None
    }
}

pub proof fn lemma_strip_direct_untagged(s: Seq<Protocol>)
    ensures
        !has_direct_tag(strip_direct(s)),
        strip_direct(s).len() <= s.len(),
    decreases s.len(),
{
    if s.len() > 0 {
        lemma_strip_direct_untagged(s.drop_last());
        let r = strip_direct(s.drop_last());
        if s.last() != Protocol::P2pWebRtcDirect {
            assert forall|i: int| 0 <= i < r.push(s.last()).len() implies #[trigger] r.push(
                s.last(),
            )[i] != Protocol::P2pWebRtcDirect by {
                if i < r.len() {
                    assert(r.push(s.last())[i] == r[i]);
                }
            }
        }
    }
}

fn part_is_host(p: Protocol) -> (r: bool)
    ensures
        r == is_host(p),
{
    match p {
        Protocol::Ip4(_) | Protocol::Ip6(_) | Protocol::Dns(_) | Protocol::Dns4(_) | Protocol::Dns6(
            _,
        ) => true,
        _ => false,
    }
}

/// Whether the address contains the given component.
pub fn contains_part(addr: &Addr, part: Protocol) -> (r: bool)
    ensures
        r == (exists|i: int| 0 <= i < addr@.len() && #[trigger] addr@[i] == part),
{
    let mut i: usize = 0;
    while i < addr.parts.len()
        invariant
            i <= addr@.len(),
            forall|j: int| 0 <= j < i ==> #[trigger] addr@[j] != part,
        decreases addr@.len() - i,
    {
        if addr.parts[i] == part {
            return true;
        }
        i = i + 1;
    }
    false
}

/// Whether the address is meant for the hole-punch transport.
pub fn is_holepunch_direct_addr(addr: &Addr) -> (r: bool)
    ensures
        r == has_direct_tag(addr@),
{
    contains_part(addr, Protocol::P2pWebRtcDirect)
}

/// Whether the address goes through a relay circuit.
pub fn is_relayed(addr: &Addr) -> (r: bool)
    ensures
        r == has_circuit(addr@),
{
    contains_part(addr, Protocol::P2pCircuit)
}

/// The plain transport address under a direct-capable one.
pub fn direct_addr_2_normal(addr: &Addr) -> (r: Addr)
    ensures
        r@ == strip_direct(addr@),
        !has_direct_tag(r@),
{
    let mut parts: Vec<Protocol> = Vec::new();
    let mut i: usize = 0;
    while i < addr.parts.len()
        invariant
            i <= addr@.len(),
            parts@ == strip_direct(addr@.subrange(0, i as int)),
        decreases addr@.len() - i,
    {
        let p = addr.parts[i];
        assert(addr@.subrange(0, i + 1).drop_last() =~= addr@.subrange(0, i as int));
        if p != Protocol::P2pWebRtcDirect {
            parts.push(p);
        }
        i = i + 1;
    }
    assert(addr@.subrange(0, addr@.len() as int) =~= addr@);
    proof {
        lemma_strip_direct_untagged(addr@);
    }
    Addr { parts }
}

impl Addr {
    /// An address holding exactly the given components.
    pub fn from_parts(parts: Vec<Protocol>) -> (r: Addr)
        ensures
            r@ == parts@,
    {
        Addr { parts }
    }

    /// A copy of this address.
    pub fn duplicate(&self) -> (r: Addr)
        ensures
            r@ == self@,
    {
        let mut parts: Vec<Protocol> = Vec::new();
        let mut i: usize = 0;
        while i < self.parts.len()
            invariant
                i <= self@.len(),
                parts@ == self@.subrange(0, i as int),
            decreases self@.len() - i,
        {
            parts.push(self.parts[i]);
            i = i + 1;
        }
        assert(parts@ =~= self@);
        Addr { parts }
    }

    /// This address with one more component at its end.
    pub fn with(self, p: Protocol) -> (r: Addr)
        ensures
            r@ == self@.push(p),
    {
        let mut parts = self.parts;
        parts.push(p);
        Addr { parts }
    }

    /// The component at index 1, if any.
    pub fn port(&self) -> (r: Option<Protocol>)
        ensures
            r == port_part(self@),
    {
        if self.parts.len() > 1 {
            Some(self.parts[1])
        } else {
            None
        }
    }
}

/// Replaces the host of `local` by the host that a remote peer observed.
/// Gives nothing unless both addresses start with a host component.
pub fn address_translation(local: &Addr, observed: &Addr) -> (r: Option<Addr>)
    ensures
        r matches Some(a) ==> translated(local@, observed@) == Some(a@),
        r is None ==> translated(local@, observed@) is None,
{
    if local.parts.len() > 0 && part_is_host(local.parts[0]) && observed.parts.len() > 0
        && part_is_host(observed.parts[0]) {
        let mut a = local.duplicate();
        a.parts.set(0, observed.parts[0]);
        Some(a)
    } else {
        None
    }
}

} // verus!
