//! IPv4 addresses and the values that a configuration accepts as one.
use vstd::prelude::*;

use crate::dotted::{parse_dotted_str, parse_dotted_text};
use crate::error::{Error, Result};
use crate::sys::af_inet;

verus! {

/// An IPv4 address, held as its 32 bits in network order (the first octet is
/// the most significant byte).
#[derive(Debug, Clone, Copy, PartialEq, Eq, Structural)]
pub struct Ipv4Addr {
    pub bits: u32,
}

impl View for Ipv4Addr {
    type V = u32;

    open spec fn view(&self) -> u32 {
        self.bits
    }
}

/// The 32 bits of the address with the given octets.
pub open spec fn bits_of_octets(a: u8, b: u8, c: u8, d: u8) -> u32 {
    (a * 0x100_0000 + b * 0x1_0000 + c * 0x100 + d) as u32
}

/// The four octets of an address, first octet first.
pub open spec fn octets_of_bits(bits: u32) -> (u8, u8, u8, u8) {
    (
        (bits / 0x100_0000) as u8,
        (bits / 0x1_0000 % 0x100) as u8,
        (bits / 0x100 % 0x100) as u8,
        (bits % 0x100) as u8,
    )
}

/// Octets and bits are two spellings of one address.
pub proof fn lemma_octets_bits_roundtrip(a: u8, b: u8, c: u8, d: u8, bits: u32)
    ensures
        octets_of_bits(bits_of_octets(a, b, c, d)) == (a, b, c, d),
        bits_of_octets(
            octets_of_bits(bits).0,
            octets_of_bits(bits).1,
            octets_of_bits(bits).2,
            octets_of_bits(bits).3,
        ) == bits,
{
    assert(((a as u32) * 0x100_0000 + (b as u32) * 0x1_0000 + (c as u32) * 0x100 + (d as u32))
        / 0x100_0000 == a) by (bit_vector);
    assert((((a as u32) * 0x100_0000 + (b as u32) * 0x1_0000 + (c as u32) * 0x100 + (d as u32))
        / 0x1_0000) % 0x100 == b) by (bit_vector);
    assert((((a as u32) * 0x100_0000 + (b as u32) * 0x1_0000 + (c as u32) * 0x100 + (d as u32))
        / 0x100) % 0x100 == c) by (bit_vector);
    assert(((a as u32) * 0x100_0000 + (b as u32) * 0x1_0000 + (c as u32) * 0x100 + (d as u32))
        % 0x100 == d) by (bit_vector);
    assert((bits / 0x100_0000) * 0x100_0000 + ((bits / 0x1_0000) % 0x100) * 0x1_0000 + ((bits
        / 0x100) % 0x100) * 0x100 + bits % 0x100 == bits) by (bit_vector);
}

impl Ipv4Addr {
    /// The address with the given octets.
    pub fn new(a: u8, b: u8, c: u8, d: u8) -> (r: Self)
        ensures
            r@ == bits_of_octets(a, b, c, d),
    {
        let bits = (a as u32) * 0x100_0000 + (b as u32) * 0x1_0000 + (c as u32) * 0x100 + (
        d as u32);
        Ipv4Addr { bits }
    }

    /// The address with the given bits, first octet in the most significant byte.
    pub fn from_bits(bits: u32) -> (r: Self)
        ensures
            r@ == bits,
    {
        Ipv4Addr { bits }
    }

    /// The bits of the address.
    pub fn to_bits(&self) -> (r: u32)
        ensures
            r == self@,
    {
        self.bits
    }

    /// The four octets of the address, first octet first.
    pub fn octets(&self) -> (r: [u8; 4])
        ensures
            r@ == seq![
                octets_of_bits(self@).0,
                octets_of_bits(self@).1,
                octets_of_bits(self@).2,
                octets_of_bits(self@).3,
            ],
    {
        let bits = self.bits;
        let a = (bits / 0x100_0000) as u8;
        let b = (bits / 0x1_0000 % 0x100) as u8;
        let c = (bits / 0x100 % 0x100) as u8;
        let d = (bits % 0x100) as u8;
        let r = [a, b, c, d];
        assert(r@ =~= seq![a, b, c, d]);
        r
    }
}

/// An IPv6 address, held as its eight 16-bit segments.
#[derive(Debug, Clone, Copy)]
pub struct Ipv6Addr {
    segments: [u16; 8],
}

impl View for Ipv6Addr {
    type V = Seq<u16>;

    closed spec fn view(&self) -> Seq<u16> {
        self.segments@
    }
}

impl Ipv6Addr {
    /// The address with the given segments.
    pub fn new(a: u16, b: u16, c: u16, d: u16, e: u16, f: u16, g: u16, h: u16) -> (r: Self)
        ensures
            r@ == seq![a, b, c, d, e, f, g, h],
    {
        let segments = [a, b, c, d, e, f, g, h];
        assert(segments@ =~= seq![a, b, c, d, e, f, g, h]);
        Ipv6Addr { segments }
    }

    /// The eight segments of the address.
    pub fn segments(&self) -> (r: [u16; 8])
        ensures
            r@ == self@,
    {
        self.segments
    }
}

/// An IP address of either version.
#[derive(Debug, Clone, Copy)]
pub enum IpAddr {
    V4(Ipv4Addr),
    V6(Ipv6Addr),
}

/// An IPv4 socket address: an address and a port.
#[derive(Debug, Clone, Copy)]
pub struct SocketAddrV4 {
    ip: Ipv4Addr,
    port: u16,
}

impl View for SocketAddrV4 {
    /// The address's bits and the port.
    type V = (u32, u16);

    closed spec fn view(&self) -> (u32, u16) {
        (self.ip@, self.port)
    }
}

impl SocketAddrV4 {
    /// The socket address with the given address and port.
    pub fn new(ip: Ipv4Addr, port: u16) -> (r: Self)
        ensures
            r@ == (ip@, port),
    {
        SocketAddrV4 { ip, port }
    }

    /// The address.
    pub fn ip(&self) -> (r: &Ipv4Addr)
        ensures
            r@ == self@.0,
    {
        &self.ip
    }

    /// The port.
    pub fn port(&self) -> (r: u16)
        ensures
            r == self@.1,
    {
        self.port
    }
}

/// An IPv6 socket address: an address and a port.
#[derive(Debug, Clone, Copy)]
pub struct SocketAddrV6 {
    ip: Ipv6Addr,
    port: u16,
}

impl View for SocketAddrV6 {
    /// The address's segments and the port.
    type V = (Seq<u16>, u16);

    closed spec fn view(&self) -> (Seq<u16>, u16) {
        (self.ip@, self.port)
    }
}

impl SocketAddrV6 {
    /// The socket address with the given address and port.
    pub fn new(ip: Ipv6Addr, port: u16) -> (r: Self)
        ensures
            r@ == (ip@, port),
    {
        SocketAddrV6 { ip, port }
    }
}

/// A socket address of either version.
#[derive(Debug, Clone, Copy)]
pub enum SocketAddr {
    V4(SocketAddrV4),
    V6(SocketAddrV6),
}

/// A value that may stand for an IPv4 address.
pub trait IntoIpv4Addr {
    /// The address the value stands for, if it stands for one.
    spec fn ipv4_of(&self) -> Option<Ipv4Addr>;

    /// The address the value stands for, or `InvalidAddress`.
    fn into_ipv4(&self) -> (r: Result<Ipv4Addr>)
        ensures
            match self.ipv4_of() {
                Some(a) => r matches Ok(x) && x == a,
                None => r matches Err(Error::InvalidAddress),
            },
    ;
}

impl IntoIpv4Addr for u32 {
    open spec fn ipv4_of(&self) -> Option<Ipv4Addr> {
        Some(Ipv4Addr { bits: *self })
    }

    fn into_ipv4(&self) -> (r: Result<Ipv4Addr>) {
        Ok(Ipv4Addr::from_bits(*self))
    }
}

impl IntoIpv4Addr for i32 {
    open spec fn ipv4_of(&self) -> Option<Ipv4Addr> {
        Some(Ipv4Addr { bits: *self as u32 })
    }

    fn into_ipv4(&self) -> (r: Result<Ipv4Addr>) {
        Ok(Ipv4Addr::from_bits(*self as u32))
    }
}

impl IntoIpv4Addr for (u8, u8, u8, u8) {
    open spec fn ipv4_of(&self) -> Option<Ipv4Addr> {
        Some(Ipv4Addr { bits: bits_of_octets(self.0, self.1, self.2, self.3) })
    }

    fn into_ipv4(&self) -> (r: Result<Ipv4Addr>) {
        Ok(Ipv4Addr::new(self.0, self.1, self.2, self.3))
    }
}

impl IntoIpv4Addr for Ipv4Addr {
    open spec fn ipv4_of(&self) -> Option<Ipv4Addr> {
        Some(*self)
    }

    fn into_ipv4(&self) -> (r: Result<Ipv4Addr>) {
        Ok(*self)
    }
}

impl IntoIpv4Addr for &Ipv4Addr {
    open spec fn ipv4_of(&self) -> Option<Ipv4Addr> {
        Some(**self)
    }

    fn into_ipv4(&self) -> (r: Result<Ipv4Addr>) {
        Ok(**self)
    }
}

impl IntoIpv4Addr for IpAddr {
    open spec fn ipv4_of(&self) -> Option<Ipv4Addr> {
        match self {
            IpAddr::V4(a) => Some(*a),
            IpAddr::V6(_) => None,
        }
    }

    fn into_ipv4(&self) -> (r: Result<Ipv4Addr>) {
        match self {
            IpAddr::V4(addr) => Ok(*addr),
            _ => Err(Error::InvalidAddress),
        }
    }
}

impl IntoIpv4Addr for &IpAddr {
    open spec fn ipv4_of(&self) -> Option<Ipv4Addr> {
        (**self).ipv4_of()
    }

    fn into_ipv4(&self) -> (r: Result<Ipv4Addr>) {
        (**self).into_ipv4()
    }
}

impl IntoIpv4Addr for SocketAddrV4 {
    open spec fn ipv4_of(&self) -> Option<Ipv4Addr> {
        Some(Ipv4Addr { bits: self@.0 })
    }

    fn into_ipv4(&self) -> (r: Result<Ipv4Addr>) {
        self.ip().into_ipv4()
    }
}

impl IntoIpv4Addr for &SocketAddrV4 {
    open spec fn ipv4_of(&self) -> Option<Ipv4Addr> {
        Some(Ipv4Addr { bits: self@.0 })
    }

    fn into_ipv4(&self) -> (r: Result<Ipv4Addr>) {
        (**self).into_ipv4()
    }
}

impl IntoIpv4Addr for SocketAddr {
    open spec fn ipv4_of(&self) -> Option<Ipv4Addr> {
        match self {
            SocketAddr::V4(a) => Some(Ipv4Addr { bits: a@.0 }),
            SocketAddr::V6(_) => None,
        }
    }

    fn into_ipv4(&self) -> (r: Result<Ipv4Addr>) {
        match self {
            SocketAddr::V4(addr) => addr.into_ipv4(),
            _ => Err(Error::InvalidAddress),
        }
    }
}


/// The address whose dotted-decimal text `s` is, if it is the text of one.
pub open spec fn text_ipv4(s: Seq<char>) -> Option<Ipv4Addr> {
    match parse_dotted_text(s) {
        Some(bits) => Some(Ipv4Addr { bits }),
        None => None,
    }
}

impl IntoIpv4Addr for str {
    /// The address whose dotted-decimal text the string is.
    open spec fn ipv4_of(&self) -> Option<Ipv4Addr> {
        text_ipv4(self@)
    }

    fn into_ipv4(&self) -> (r: Result<Ipv4Addr>) {
        match parse_dotted_str(self) {
            Some(bits) => Ok(Ipv4Addr::from_bits(bits)),
            None => Err(Error::InvalidAddress),
        }
    }
}

impl IntoIpv4Addr for &str {
    open spec fn ipv4_of(&self) -> Option<Ipv4Addr> {
        text_ipv4((*self)@)
    }

    fn into_ipv4(&self) -> (r: Result<Ipv4Addr>) {
        (**self).into_ipv4()
    }
}

impl IntoIpv4Addr for String {
    open spec fn ipv4_of(&self) -> Option<Ipv4Addr> {
        text_ipv4(self@)
    }

    fn into_ipv4(&self) -> (r: Result<Ipv4Addr>) {
        self.as_str().into_ipv4()
    }
}

impl IntoIpv4Addr for &String {
    open spec fn ipv4_of(&self) -> Option<Ipv4Addr> {
        text_ipv4((*self)@)
    }

    fn into_ipv4(&self) -> (r: Result<Ipv4Addr>) {
        (**self).into_ipv4()
    }
}

/// A socket address as the system's `sockaddr` lays it out: the family, then
/// fourteen bytes of family-specific data.
#[derive(Debug, Clone, Copy)]
pub struct SockAddr {
    pub family: u16,
    pub data: [u8; 14],
}

/// The data bytes of an IPv4 `sockaddr`: port zero, then the address in
/// network order, then zero padding.
pub open spec fn sockaddr_in_data(bits: u32) -> Seq<u8> {
    let o = octets_of_bits(bits);
    seq![0u8, 0u8, o.0, o.1, o.2, o.3, 0u8, 0u8, 0u8, 0u8, 0u8, 0u8, 0u8, 0u8]
}

/// The address held in the data bytes of an IPv4 `sockaddr`.
pub open spec fn sockaddr_in_bits(data: Seq<u8>) -> u32 {
    bits_of_octets(data[2], data[3], data[4], data[5])
}

/// Conversions between IPv4 addresses and the system's socket addresses.
pub trait Ipv4AddrExt: Sized {
    /// The bits of the address that a value of the implementing type holds.
    spec fn ext_bits(&self) -> u32;

    /// The `AF_INET` socket address of this address, with port zero.
    fn to_sockaddr(&self) -> (r: SockAddr)
        ensures
            r.family == 2,
            r.data@ == sockaddr_in_data(self.ext_bits()),
    ;

    /// The address held by an `AF_INET` socket address.
    fn from_sockaddr(sock: SockAddr) -> (r: Self)
        ensures
            r.ext_bits() == sockaddr_in_bits(sock.data@),
    ;
}

impl Ipv4AddrExt for Ipv4Addr {
    open spec fn ext_bits(&self) -> u32 {
        self@
    }

    fn to_sockaddr(&self) -> (r: SockAddr) {
        let o = self.octets();
        let data: [u8; 14] = [0, 0, o[0], o[1], o[2], o[3], 0, 0, 0, 0, 0, 0, 0, 0];
        assert(data@ =~= sockaddr_in_data(self@));
        SockAddr { family: af_inet() as u16, data }
    }

    fn from_sockaddr(sock: SockAddr) -> (r: Self) {
        let d = sock.data;
        Ipv4Addr::new(d[2], d[3], d[4], d[5])
    }
}

/// An address written into a socket address and read back out is unchanged.
pub proof fn lemma_sockaddr_roundtrip(addr: Ipv4Addr)
    ensures
        sockaddr_in_bits(sockaddr_in_data(addr@)) == addr@,
{
    lemma_octets_bits_roundtrip(0, 0, 0, 0, addr@);
}

} // verus!
