//! The interface list of Unix-family systems (`getifaddrs`), walked from a
//! plain-value copy of its nodes.
use vstd::prelude::*;
use crate::decode::{
    decode_v4, decode_v6, port_spec, read_port, v4_spec, v6_spec, SOCKADDR_IN6_LEN,
    SOCKADDR_IN_LEN,
};
use nix::sys::socket::AddressFamily as NixFamily;
use crate::model::{views, EnumerationError, Interface, InterfaceView, Kind, NextHop, SocketAddress};

verus! {

/// Interface flags reported for each node.
#[allow(non_camel_case_types)]
#[derive(Clone, Copy, Debug, PartialEq, Eq, Structural)]
pub enum SIOCGIFFLAGS {
    IFF_UP,
    IFF_BROADCAST,
    IFF_DEBUG,
    IFF_LOOPBACK,
    IFF_POINTOPOINT,
    IFF_NOTRAILERS,
    IFF_RUNNING,
    IFF_NOARP,
    IFF_PROMISC,
    IFF_ALLMULTI,
    IFF_MASTER,
    IFF_SLAVE,
    IFF_MULTICAST,
    IFF_PORTSEL,
    IFF_AUTOMEDIA,
    IFF_DYNAMIC,
}

/// The bit of a flag in the flags word.
pub open spec fn flag_bit(f: SIOCGIFFLAGS) -> u32 {
    match f {
        SIOCGIFFLAGS::IFF_UP => 0x1,
        SIOCGIFFLAGS::IFF_BROADCAST => 0x2,
        SIOCGIFFLAGS::IFF_DEBUG => 0x4,
        SIOCGIFFLAGS::IFF_LOOPBACK => 0x8,
        SIOCGIFFLAGS::IFF_POINTOPOINT => 0x10,
        SIOCGIFFLAGS::IFF_NOTRAILERS => 0x20,
        SIOCGIFFLAGS::IFF_RUNNING => 0x40,
        SIOCGIFFLAGS::IFF_NOARP => 0x80,
        SIOCGIFFLAGS::IFF_PROMISC => 0x100,
        SIOCGIFFLAGS::IFF_ALLMULTI => 0x200,
        SIOCGIFFLAGS::IFF_MASTER => 0x400,
        SIOCGIFFLAGS::IFF_SLAVE => 0x800,
        SIOCGIFFLAGS::IFF_MULTICAST => 0x1000,
        SIOCGIFFLAGS::IFF_PORTSEL => 0x2000,
        SIOCGIFFLAGS::IFF_AUTOMEDIA => 0x4000,
        SIOCGIFFLAGS::IFF_DYNAMIC => 0x8000,
    }
}

impl SIOCGIFFLAGS {
    /// The bit of this flag in the flags word.
    pub fn bits(&self) -> (r: u32)
        ensures
            r == flag_bit(*self),
    {
        match self {
            SIOCGIFFLAGS::IFF_UP => 0x1,
            SIOCGIFFLAGS::IFF_BROADCAST => 0x2,
            SIOCGIFFLAGS::IFF_DEBUG => 0x4,
            SIOCGIFFLAGS::IFF_LOOPBACK => 0x8,
            SIOCGIFFLAGS::IFF_POINTOPOINT => 0x10,
            SIOCGIFFLAGS::IFF_NOTRAILERS => 0x20,
            SIOCGIFFLAGS::IFF_RUNNING => 0x40,
            SIOCGIFFLAGS::IFF_NOARP => 0x80,
            SIOCGIFFLAGS::IFF_PROMISC => 0x100,
            SIOCGIFFLAGS::IFF_ALLMULTI => 0x200,
            SIOCGIFFLAGS::IFF_MASTER => 0x400,
            SIOCGIFFLAGS::IFF_SLAVE => 0x800,
            SIOCGIFFLAGS::IFF_MULTICAST => 0x1000,
            SIOCGIFFLAGS::IFF_PORTSEL => 0x2000,
            SIOCGIFFLAGS::IFF_AUTOMEDIA => 0x4000,
            SIOCGIFFLAGS::IFF_DYNAMIC => 0x8000,
        }
    }

    /// Whether this flag is set in `flags`.
    pub fn is_set(&self, flags: u32) -> (r: bool)
        ensures
            r == (flags & flag_bit(*self) == flag_bit(*self)),
    {
        let b = self.bits();
        flags & b == b
    }
}

/// A socket-address record: its family tag and its bytes, laid out as
/// `sockaddr_in` or `sockaddr_in6` for the two internet families.
#[derive(Clone, Debug)]
pub struct RawSockaddr {
    pub family: i32,
    pub bytes: Vec<u8>,
}

/// The broadcast-or-destination address of a node; which of the two it is
/// depends on the node's flags.
#[allow(non_camel_case_types)]
#[derive(Clone, Debug)]
pub struct union_ifa_ifu {
    pub data: Option<RawSockaddr>,
}

impl union_ifa_ifu {
    /// The record read as a broadcast address.
    pub fn ifu_broadaddr(&self) -> (r: &Option<RawSockaddr>)
        ensures
            *r == self.data,
    {
        &self.data
    }

    /// The record read as a point-to-point destination address.
    pub fn ifu_dstaddr(&self) -> (r: &Option<RawSockaddr>)
        ensures
            *r == self.data,
    {
        &self.data
    }
}

/// One node of the interface list; `None` stands for a null address pointer.
#[allow(non_camel_case_types)]
#[derive(Clone, Debug)]
pub struct ifaddrs {
    pub ifa_name: Vec<u8>,
    pub ifa_flags: u32,
    pub ifa_addr: Option<RawSockaddr>,
    pub ifa_netmask: Option<RawSockaddr>,
    pub ifa_ifu: union_ifa_ifu,
}

/// The address families that the family lookup can report on this system.
#[derive(Clone, Copy, Debug, PartialEq, Eq, Structural)]
pub enum Family {
    Unix,
    Inet,
    Inet6,
    Netlink,
    Packet,
    Vsock,
    Other,
}

/// The family lookup's table: the Linux tags of `AF_UNIX`, `AF_INET`,
/// `AF_INET6`, `AF_NETLINK`, `AF_PACKET` and `AF_VSOCK`; any other tag is
/// not recognized.
pub open spec fn family_spec(tag: i32) -> Option<Family> {
    if tag == 1 {
        Some(Family::Unix)
    } else if tag == 2 {
        Some(Family::Inet)
    } else if tag == 10 {
        Some(Family::Inet6)
    } else if tag == 16 {
        Some(Family::Netlink)
    } else if tag == 17 {
        Some(Family::Packet)
    } else if tag == 40 {
        Some(Family::Vsock)
    } else {
        None
    }
}

/// Relies on `nix::sys::socket::AddressFamily::from_i32`, which maps a
/// family tag to a family through the table of `family_spec` and gives `None`
/// for any other tag.
#[verifier::external_body]
fn address_family(tag: i32) -> (r: Option<Family>)
    ensures
        r == family_spec(tag),
{
    match NixFamily::from_i32(tag) {
        None => None,
        Some(NixFamily::Unix) => Some(Family::Unix),
        Some(NixFamily::Inet) => Some(Family::Inet),
        Some(NixFamily::Inet6) => Some(Family::Inet6),
        Some(NixFamily::Netlink) => Some(Family::Netlink),
        Some(NixFamily::Packet) => Some(Family::Packet),
        Some(NixFamily::Vsock) => Some(Family::Vsock),
        Some(_) => Some(Family::Other),
    }
}

/// The kind of binding a recognized family stands for.
pub open spec fn kind_spec(f: Family) -> Kind {
    match f {
        Family::Inet => Kind::Ipv4,
        Family::Inet6 => Kind::Ipv6,
        Family::Packet => Kind::Packet,
        _ => Kind::Unknown,
    }
}

/// The kind of binding a recognized family stands for.
pub fn kind_of_family(f: Family) -> (r: Kind)
    ensures
        r == kind_spec(f),
{
    match f {
        Family::Inet => Kind::Ipv4,
        Family::Inet6 => Kind::Ipv6,
        Family::Packet => Kind::Packet,
        _ => Kind::Unknown,
    }
}

/// The address a record decodes to: `None` for a null record, an
/// unrecognized family or a record too short for its family.
pub open spec fn sockaddr_spec(sa: Option<RawSockaddr>) -> Option<SocketAddress> {
    match sa {
        None => None,
        Some(r) => match family_spec(r.family) {
            Some(Family::Inet) => if r.bytes@.len() >= SOCKADDR_IN_LEN {
                Some(v4_spec(r.bytes@, port_spec(r.bytes@)))
            } else {
                None
            },
            Some(Family::Inet6) => if r.bytes@.len() >= SOCKADDR_IN6_LEN {
                Some(v6_spec(r.bytes@, port_spec(r.bytes@), 0))
            } else {
                None
            },
            _ => None,
        },
    }
}

/// Decodes a socket-address record into an address.
pub fn nix_socketaddr_to_sockaddr(sa: &Option<RawSockaddr>) -> (r: Option<SocketAddress>)
    ensures
        r == sockaddr_spec(*sa),
        sa.is_none() ==> r.is_none(),
{
    match sa {
        None => None,
        Some(rec) => match address_family(rec.family) {
            Some(Family::Inet) => decode_v4(&rec.bytes, read_port(&rec.bytes)),
            Some(Family::Inet6) => decode_v6(&rec.bytes, read_port(&rec.bytes), 0),
            _ => None,
        },
    }
}


/// What the text of a name's bytes is: `None` where they are not UTF-8.
pub uninterp spec fn utf8_text(b: Seq<u8>) -> Option<Seq<char>>;

/// The view of an optional string.
pub open spec fn text_view(s: Option<String>) -> Option<Seq<char>> {
    match s {
        Some(t) => Some(t@),
        None => None,
    }
}

/// Relies on `String::from_utf8`, which succeeds exactly on UTF-8 bytes and
/// then holds their text.
#[verifier::external_body]
fn decode_name(b: &Vec<u8>) -> (r: Option<String>)
    ensures
        text_view(r) == utf8_text(b@),
{
    String::from_utf8(b.clone()).ok()
}

/// What the walk does with one node.
#[derive(Clone, Debug)]
pub enum Step {
    /// End the walk here, keeping what was gathered.
    Stop,
    /// Drop the node and go on.
    Skip,
    /// Append the interface and go on.
    Emit(Interface),
}

/// The mathematical value of a [`Step`].
pub enum StepView {
    Stop,
    Skip,
    Emit(InterfaceView),
}

/// The view of a step.
pub open spec fn step_view(s: Step) -> StepView {
    match s {
        Step::Stop => StepView::Stop,
        Step::Skip => StepView::Skip,
        Step::Emit(i) => StepView::Emit(i@),
    }
}

/// The peer address of a node: its broadcast address where the broadcast
/// flag is set, else its destination address.
pub open spec fn hop_spec(node: ifaddrs) -> Option<NextHop> {
    if node.ifa_flags & 0x2u32 == 0x2u32 {
        match sockaddr_spec(node.ifa_ifu.data) {
            Some(a) => Some(NextHop::Broadcast(a)),
            None => None,
        }
    } else {
        match sockaddr_spec(node.ifa_ifu.data) {
            Some(a) => Some(NextHop::Destination(a)),
            None => None,
        }
    }
}

/// What the walk does with a node whose name decoded to `name`: it stops at
/// an undecodable name, a null address or an unrecognized family, drops a
/// node of unknown kind, and otherwise emits the node's binding.
pub open spec fn node_spec(node: ifaddrs, name: Option<Seq<char>>) -> StepView {
    match name {
        None => StepView::Stop,
        Some(n) => match node.ifa_addr {
            None => StepView::Stop,
            Some(a) => match family_spec(a.family) {
                None => StepView::Stop,
                Some(f) => if kind_spec(f) == Kind::Unknown {
                    StepView::Skip
                } else {
                    StepView::Emit(
                        InterfaceView {
                            name: n,
                            kind: kind_spec(f),
                            addr: sockaddr_spec(node.ifa_addr),
                            mask: sockaddr_spec(node.ifa_netmask),
                            hop: hop_spec(node),
                        },
                    )
                },
            },
        },
    }
}

/// The interfaces gathered from a list of nodes, walked from the front.
pub open spec fn walk_spec(nodes: Seq<ifaddrs>) -> Seq<InterfaceView>
    decreases nodes.len(),
{
    if nodes.len() == 0 {
        seq![]
    } else {
        match node_spec(nodes[0], utf8_text(nodes[0].ifa_name@)) {
            StepView::Stop => seq![],
            StepView::Skip => walk_spec(nodes.drop_first()),
            StepView::Emit(v) => seq![v] + walk_spec(nodes.drop_first()),
        }
    }
}

/// Decides what the walk does with a node whose name decoded to `name`.
pub fn interface_of_node(node: &ifaddrs, name: Option<String>) -> (r: Step)
    ensures
        step_view(r) == node_spec(*node, text_view(name)),
{
    let n = match name {
        None => {
            return Step::Stop;
        },
        Some(n) => n,
    };
    let family = match &node.ifa_addr {
        None => {
            return Step::Stop;
        },
        Some(a) => address_family(a.family),
    };
    let kind = match family {
        None => {
            return Step::Stop;
        },
        Some(f) => kind_of_family(f),
    };
    if kind == Kind::Unknown {
        return Step::Skip;
    }
    let addr = nix_socketaddr_to_sockaddr(&node.ifa_addr);
    let mask = nix_socketaddr_to_sockaddr(&node.ifa_netmask);
    let hop = if SIOCGIFFLAGS::IFF_BROADCAST.is_set(node.ifa_flags) {
        match nix_socketaddr_to_sockaddr(node.ifa_ifu.ifu_broadaddr()) {
            Some(a) => Some(NextHop::Broadcast(a)),
            None => None,
        }
    } else {
        match nix_socketaddr_to_sockaddr(node.ifa_ifu.ifu_dstaddr()) {
            Some(a) => Some(NextHop::Destination(a)),
            None => None,
        }
    };
    Step::Emit(Interface { name: n, kind, addr, mask, hop })
}

/// Walks the nodes from the front and gathers their interfaces.
pub fn walk(nodes: &Vec<ifaddrs>) -> (r: Vec<Interface>)
    ensures
        views(r@) == walk_spec(nodes@),
{
    let mut r: Vec<Interface> = Vec::new();
    let mut i: usize = 0;
    assert(nodes@.skip(0) =~= nodes@);
    assert(views(r@) =~= Seq::<InterfaceView>::empty());
    assert(views(r@) + walk_spec(nodes@) =~= walk_spec(nodes@));
    while i < nodes.len()
        invariant
            i <= nodes@.len(),
            views(r@) + walk_spec(nodes@.skip(i as int)) == walk_spec(nodes@),
        decreases nodes@.len() - i,
    {
        let ghost rest = nodes@.skip(i as int);
        assert(rest.drop_first() =~= nodes@.skip(i + 1));
        let node = &nodes[i];
        let name = decode_name(&node.ifa_name);
        match interface_of_node(node, name) {
            Step::Stop => {
                assert(views(r@) =~= walk_spec(nodes@));
                return r;
            },
            Step::Skip => {},
            Step::Emit(itf) => {
                let ghost v = itf@;
                let ghost before = r@;
                r.push(itf);
                assert(views(r@) =~= views(before).push(v));
                assert(views(r@) + walk_spec(nodes@.skip(i + 1)) =~= views(before) + (seq![v]
                    + walk_spec(nodes@.skip(i + 1))));
            },
        }
        i = i + 1;
    }
    assert(nodes@.skip(i as int) =~= seq![]);
    assert(views(r@) =~= walk_spec(nodes@));
    r
}

/// The interface list from the outcome of the system call that lists the
/// nodes: a status other than `0` is a failure, and `nodes` is then unused.
pub fn ifaces(status: i32, nodes: &Vec<ifaddrs>) -> (r: Result<Vec<Interface>, EnumerationError>)
    ensures
        status == 0 ==> r.is_ok() && views(r.unwrap()@) == walk_spec(nodes@),
        status != 0 ==> r == Err::<Vec<Interface>, EnumerationError>(EnumerationError::Failed),
{
    if status == 0 {
        Ok(walk(nodes))
    } else {
        Err(EnumerationError::Failed)
    }
}

/// No interface of unknown kind is ever gathered.
pub proof fn lemma_walk_has_no_unknown(nodes: Seq<ifaddrs>)
    ensures
        forall|i: int| 0 <= i < walk_spec(nodes).len() ==> #[trigger] walk_spec(nodes)[i].kind != Kind::Unknown,
    decreases nodes.len(),
{
    if nodes.len() > 0 {
        lemma_walk_has_no_unknown(nodes.drop_first());
    }
}

} // verus!
