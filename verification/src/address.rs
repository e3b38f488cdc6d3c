//! Network addresses: the plain socket-address model the endpoint works on,
//! and the reading of a multiaddress as `/ip4|ip6/../udp/../quic`.

use libp2p_core::multiaddr::Protocol;
use libp2p_core::Multiaddr;
use vstd::prelude::*;

verus! {

/// An IPv4 address, held as its 32 bits in network order: `a.b.c.d` is
/// `a * 2^24 + b * 2^16 + c * 2^8 + d`.
#[derive(Clone, Copy, Debug, PartialEq, Eq, Structural)]
pub struct Ipv4Addr {
    pub bits: u32,
}

/// An IPv6 address, held as its 128 bits in network order.
#[derive(Clone, Copy, Debug, PartialEq, Eq, Structural)]
pub struct Ipv6Addr {
    pub bits: u128,
}

/// An IP address of either family.
#[derive(Clone, Copy, Debug, PartialEq, Eq, Structural)]
pub enum IpAddr {
    V4(Ipv4Addr),
    V6(Ipv6Addr),
}

/// A UDP socket address: host and port.
#[derive(Clone, Copy, Debug, PartialEq, Eq, Structural)]
pub struct SocketAddr {
    pub ip: IpAddr,
    pub port: u16,
}

/// One component of a multiaddress, as far as this endpoint tells components
/// apart. Everything that is neither an IP host, a UDP port nor the QUIC
/// marker is `Other`.
#[derive(Clone, Copy, Debug, PartialEq, Eq, Structural)]
pub enum Segment {
    Ip4(Ipv4Addr),
    Ip6(Ipv6Addr),
    Udp(u16),
    Quic,
    Other,
}

/// The 32 bits of the dotted quad `a.b.c.d`.
pub open spec fn ipv4_bits(a: u8, b: u8, c: u8, d: u8) -> int {
    a * 0x100_0000 + b * 0x1_0000 + c * 0x100 + d
}

/// The 128 bits of the address written as the eight groups `a:b:c:d:e:f:g:h`.
pub open spec fn ipv6_bits(a: u16, b: u16, c: u16, d: u16, e: u16, f: u16, g: u16, h: u16) -> int {
    a * 0x1_0000_0000_0000_0000_0000_0000_0000 + b * 0x1_0000_0000_0000_0000_0000_0000 + c
        * 0x1_0000_0000_0000_0000_0000 + d * 0x1_0000_0000_0000_0000 + e * 0x1_0000_0000_0000 + f
        * 0x1_0000_0000 + g * 0x1_0000 + h
}

impl Ipv4Addr {
    /// The address `a.b.c.d`.
    pub fn new(a: u8, b: u8, c: u8, d: u8) -> (ip: Ipv4Addr)
        ensures
            ip.bits == ipv4_bits(a, b, c, d),
    {
        Ipv4Addr {
            bits: (a as u32) * 0x100_0000 + (b as u32) * 0x1_0000 + (c as u32) * 0x100 + (d as u32),
        }
    }

    pub open spec fn spec_is_unspecified(&self) -> bool {
        self.bits == 0
    }

    /// Whether this is the wildcard address `0.0.0.0`.
    #[verifier::when_used_as_spec(spec_is_unspecified)]
    pub fn is_unspecified(&self) -> (r: bool)
        ensures
            r == self.spec_is_unspecified(),
    {
        self.bits == 0
    }
}

impl Ipv6Addr {
    /// The address `a:b:c:d:e:f:g:h`.
    pub fn new(a: u16, b: u16, c: u16, d: u16, e: u16, f: u16, g: u16, h: u16) -> (ip: Ipv6Addr)
        ensures
            ip.bits == ipv6_bits(a, b, c, d, e, f, g, h),
    {
        let high: u128 = (a as u128) * 0x1_0000_0000_0000 + (b as u128) * 0x1_0000_0000 + (c as u128)
            * 0x1_0000 + (d as u128);
        let low: u128 = (e as u128) * 0x1_0000_0000_0000 + (f as u128) * 0x1_0000_0000 + (g as u128)
            * 0x1_0000 + (h as u128);
        Ipv6Addr { bits: high * 0x1_0000_0000_0000_0000 + low }
    }

    pub open spec fn spec_is_unspecified(&self) -> bool {
        self.bits == 0
    }

    /// Whether this is the wildcard address `::`.
    #[verifier::when_used_as_spec(spec_is_unspecified)]
    pub fn is_unspecified(&self) -> (r: bool)
        ensures
            r == self.spec_is_unspecified(),
    {
        self.bits == 0
    }
}

impl IpAddr {
    pub open spec fn spec_is_unspecified(&self) -> bool {
        match self {
            IpAddr::V4(ip) => ip.spec_is_unspecified(),
            IpAddr::V6(ip) => ip.spec_is_unspecified(),
        }
    }

    /// Whether this is the wildcard address of its family.
    #[verifier::when_used_as_spec(spec_is_unspecified)]
    pub fn is_unspecified(&self) -> (r: bool)
        ensures
            r == self.spec_is_unspecified(),
    {
        match self {
            IpAddr::V4(ip) => ip.is_unspecified(),
            IpAddr::V6(ip) => ip.is_unspecified(),
        }
    }
}

impl SocketAddr {
    pub fn new(ip: IpAddr, port: u16) -> (addr: SocketAddr)
        ensures
            addr == (SocketAddr { ip, port }),
    {
        SocketAddr { ip, port }
    }

    pub fn ip(&self) -> (ip: IpAddr)
        ensures
            ip == self.ip,
    {
        self.ip
    }

    pub fn port(&self) -> (port: u16)
        ensures
            port == self.port,
    {
        self.port
    }

    /// A peer can be dialled only at a concrete host and a concrete port.
    pub open spec fn spec_is_dialable(&self) -> bool {
        self.port != 0 && !self.ip.spec_is_unspecified()
    }

    /// Whether a connection attempt to this address makes sense: neither
    /// port zero nor the wildcard host.
    #[verifier::when_used_as_spec(spec_is_dialable)]
    pub fn is_dialable(&self) -> (r: bool)
        ensures
            r == self.spec_is_dialable(),
    {
        self.port != 0 && !self.ip.is_unspecified()
    }
}

/// The socket address that a sequence of multiaddress components denotes:
/// exactly three components, an IP host, a UDP port and the QUIC marker, in
/// that order. Any other shape denotes none.
pub open spec fn socketaddr_of(segments: Seq<Segment>) -> Result<SocketAddr, ()> {
    if segments.len() == 3 && segments[2] is Quic {
        match (segments[0], segments[1]) {
            (Segment::Ip4(ip), Segment::Udp(port)) => Ok(SocketAddr { ip: IpAddr::V4(ip), port }),
            (Segment::Ip6(ip), Segment::Udp(port)) => Ok(SocketAddr { ip: IpAddr::V6(ip), port }),
            _ => Err(()),
        }
    } else {
        Err(())
    }
}

/// Components denote a socket address in one shape only: a host, a UDP port
/// and the QUIC marker, and nothing before, between or after them.
pub proof fn lemma_socketaddr_shape(segments: Seq<Segment>)
    ensures
        socketaddr_of(segments) is Ok <==> {
            &&& segments.len() == 3
            &&& (segments[0] is Ip4 || segments[0] is Ip6)
            &&& segments[1] is Udp
            &&& segments[2] is Quic
        },
        segments.len() != 3 ==> socketaddr_of(segments) is Err,
{
}

/// Reads components as a socket address.
pub fn segments_to_socketaddr(segments: &Vec<Segment>) -> (r: Result<SocketAddr, ()>)
    ensures
        r == socketaddr_of(segments@),
{
    if segments.len() != 3 {
        return Err(());
    }
    match (segments[0], segments[1], segments[2]) {
        (Segment::Ip4(ip), Segment::Udp(port), Segment::Quic) => Ok(
            SocketAddr::new(IpAddr::V4(ip), port),
        ),
        (Segment::Ip6(ip), Segment::Udp(port), Segment::Quic) => Ok(
            SocketAddr::new(IpAddr::V6(ip), port),
        ),
        _ => Err(()),
    }
}

#[verifier::external_type_specification]
#[verifier::external_body]
pub struct ExMultiaddr(Multiaddr);

/// The bytes that a multiaddress is made of. Two multiaddresses are the same
/// address exactly when these are the same.
pub uninterp spec fn multiaddr_bytes(addr: Multiaddr) -> Seq<u8>;

/// The components that a multiaddress of the given bytes is read as, each
/// taken as a `Segment`.
pub uninterp spec fn segments_of(bytes: Seq<u8>) -> Seq<Segment>;

/// `Multiaddr::iter`, collected. The multiaddress parses its own bytes into
/// components one after the other; each comes out as the `Segment` of the
/// same kind, hosts as their bits in network order, and every kind that
/// `Segment` does not name as `Other`.
#[verifier::external_body]
fn segments(addr: &Multiaddr) -> (out: Vec<Segment>)
    ensures
        out@ == segments_of(multiaddr_bytes(*addr)),
{
    addr.iter().map(|p| match p {
        Protocol::Ip4(ip) => Segment::Ip4(Ipv4Addr { bits: ip.into() }),
        Protocol::Ip6(ip) => Segment::Ip6(Ipv6Addr { bits: ip.into() }),
        Protocol::Udp(port) => Segment::Udp(port),
        Protocol::Quic => Segment::Quic,
        _ => Segment::Other,
    }).collect()
}

/// `==` on `Multiaddr`, which compares the two byte strings.
#[verifier::external_body]
pub(crate) fn same_multiaddr(a: &Multiaddr, b: &Multiaddr) -> (same: bool)
    ensures
        same == (multiaddr_bytes(*a) == multiaddr_bytes(*b)),
{
    a == b
}

/// `Multiaddr::clone`: a second handle on the same bytes.
#[verifier::external_body]
pub(crate) fn clone_multiaddr(addr: &Multiaddr) -> (copy: Multiaddr)
    ensures
        multiaddr_bytes(copy) == multiaddr_bytes(*addr),
{
    addr.clone()
}

/// The socket address that a multiaddress denotes, if it has the shape
/// `/ip4/<host>/udp/<port>/quic` or `/ip6/<host>/udp/<port>/quic`.
pub open spec fn multiaddr_socketaddr(addr: Multiaddr) -> Result<SocketAddr, ()> {
    socketaddr_of(segments_of(multiaddr_bytes(addr)))
}

/// Reads a multiaddress as a UDP socket address. Addresses without the QUIC
/// marker, with components in another order, or with anything after the
/// marker are refused.
pub fn multiaddr_to_socketaddr(addr: &Multiaddr) -> (r: Result<SocketAddr, ()>)
    ensures
        r == multiaddr_socketaddr(*addr),
{
    let parts = segments(addr);
    segments_to_socketaddr(&parts)
}

} // verus!
