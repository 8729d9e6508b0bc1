//! The normalized, platform-independent interface data model.
use vstd::prelude::*;

verus! {

/// Address family classification of one reported binding.
#[derive(Clone, Copy, Debug, PartialEq, Eq, Structural)]
pub enum Kind {
    Ipv4,
    Ipv6,
    Link,
    Packet,
    Unknown,
}

/// A decoded socket address.
#[derive(Clone, Copy, Debug, PartialEq, Eq)]
pub enum SocketAddress {
    V4 { ip: [u8; 4], port: u16 },
    V6 { ip: [u16; 8], port: u16, scope_id: u32 },
}

/// The broadcast or point-to-point peer of a binding.
#[derive(Clone, Copy, Debug, PartialEq, Eq)]
pub enum NextHop {
    Broadcast(SocketAddress),
    Destination(SocketAddress),
}

/// One (interface, address family) binding as reported by the system.
#[derive(Clone, Debug, PartialEq, Eq)]
pub struct Interface {
    pub name: String,
    pub kind: Kind,
    pub addr: Option<SocketAddress>,
    pub mask: Option<SocketAddress>,
    pub hop: Option<NextHop>,
}

/// The mathematical value of an [`Interface`]: its name as characters.
pub struct InterfaceView {
    pub name: Seq<char>,
    pub kind: Kind,
    pub addr: Option<SocketAddress>,
    pub mask: Option<SocketAddress>,
    pub hop: Option<NextHop>,
}

impl View for Interface {
    type V = InterfaceView;

    open spec fn view(&self) -> InterfaceView {
        InterfaceView {
            name: self.name@,
            kind: self.kind,
            addr: self.addr,
            mask: self.mask,
            hop: self.hop,
        }
    }
}

/// The views of a sequence of interfaces.
pub open spec fn views(s: Seq<Interface>) -> Seq<InterfaceView> {
    s.map_values(|i: Interface| i@)
}

/// Why an enumeration failed.
#[derive(Clone, Copy, Debug, PartialEq, Eq, Structural)]
pub enum EnumerationError {
    /// The system call that lists the interfaces reported a failure.
    Failed,
    /// No address has been associated with the network endpoint yet.
    AddressNotAssociated,
    /// The system rejected a parameter of the query.
    InvalidParameter,
    /// The system ran out of memory.
    OutOfMemory,
    /// No address was found.
    NoData,
    /// Any other status code.
    Other,
    /// The buffer kept being too small after the allowed number of retries.
    TooManyRetries,
}

} // verus!
