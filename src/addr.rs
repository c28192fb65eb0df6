//! Addresses and address families.
use vstd::prelude::*;

verus! {

/// An IP address: IPv4 as a 32-bit number, IPv6 as a 128-bit number, both
/// in network (big-endian) order of their octets.
#[derive(Clone, Copy, Debug, PartialEq, Eq, Structural)]
pub enum IpAddress {
    V4(u32),
    V6(u128),
}

/// The address family declared in a message header.
#[derive(Clone, Copy, Debug, PartialEq, Eq, Structural)]
pub enum Family {
    Inet,
    Inet6,
    /// Any other family number.
    Other(u8),
}

/// An address as it is carried in a route attribute.
#[derive(Clone, Copy, Debug, PartialEq, Eq, Structural)]
pub enum WireAddress {
    Inet(u32),
    Inet6(u128),
    /// An address of another kind (an MPLS label stack, raw bytes).
    Other,
}

pub open spec fn family_of(a: IpAddress) -> Family {
    match a {
        IpAddress::V4(_) => Family::Inet,
        IpAddress::V6(_) => Family::Inet6,
    }
}

pub open spec fn same_version(a: IpAddress, b: IpAddress) -> bool {
    family_of(a) == family_of(b)
}

pub open spec fn ip_of(a: WireAddress) -> Option<IpAddress> {
    match a {
        WireAddress::Inet(x) => Some(IpAddress::V4(x)),
        WireAddress::Inet6(x) => Some(IpAddress::V6(x)),
        WireAddress::Other => None,
    }
}

pub open spec fn wire_of(a: IpAddress) -> WireAddress {
    match a {
        IpAddress::V4(x) => WireAddress::Inet(x),
        IpAddress::V6(x) => WireAddress::Inet6(x),
    }
}

/// The unspecified address of a family (`0.0.0.0` or `::`); none for
/// another family.
pub open spec fn unspecified_of(f: Family) -> Option<IpAddress> {
    match f {
        Family::Inet => Some(IpAddress::V4(0)),
        Family::Inet6 => Some(IpAddress::V6(0)),
        Family::Other(_) => None,
    }
}

impl IpAddress {
    /// The family this address belongs to.
    pub fn family(&self) -> (r: Family)
        ensures
            r == family_of(*self),
    {
        match self {
            IpAddress::V4(_) => Family::Inet,
            IpAddress::V6(_) => Family::Inet6,
        }
    }

    /// Whether both addresses are of the same IP version.
    pub fn same_version(&self, other: &IpAddress) -> (r: bool)
        ensures
            r == same_version(*self, *other),
    {
        match (self, other) {
            (IpAddress::V4(_), IpAddress::V4(_)) => true,
            (IpAddress::V6(_), IpAddress::V6(_)) => true,
            _ => false,
        }
    }

    /// The attribute form of this address.
    pub fn to_wire(&self) -> (r: WireAddress)
        ensures
            r == wire_of(*self),
            ip_of(r) == Some(*self),
    {
        match self {
            IpAddress::V4(x) => WireAddress::Inet(*x),
            IpAddress::V6(x) => WireAddress::Inet6(*x),
        }
    }
}

/// The IP address carried by an attribute, if it is an IPv4 or IPv6 one.
pub fn addr_to_ip(addr: WireAddress) -> (r: Option<IpAddress>)
    ensures
        r == ip_of(addr),
{
    match addr {
        WireAddress::Inet(x) => Some(IpAddress::V4(x)),
        WireAddress::Inet6(x) => Some(IpAddress::V6(x)),
        WireAddress::Other => None,
    }
}

/// The unspecified address of a family.
pub fn unspecified(f: Family) -> (r: Option<IpAddress>)
    ensures
        r == unspecified_of(f),
{
    match f {
        Family::Inet => Some(IpAddress::V4(0)),
        Family::Inet6 => Some(IpAddress::V6(0)),
        Family::Other(_) => None,
    }
}

} // verus!
