//! IPv4 addresses and socket addresses as plain values.

use vstd::prelude::*;
use crate::common::bytes::{hi_byte, lo_byte, spec_u16_from_be, spec_u16_to_be, u16_from_be};

verus! {

/// An IPv4 address: four octets, the first being the most significant.
#[derive(Debug, Clone, Copy, PartialEq, Eq, Structural)]
pub struct Ipv4Addr {
    a: u8,
    b: u8,
    c: u8,
    d: u8,
}

impl View for Ipv4Addr {
    type V = Seq<u8>;

    /// The four octets in network order.
    open spec fn view(&self) -> Seq<u8> {
        seq![self.spec_octet(0), self.spec_octet(1), self.spec_octet(2), self.spec_octet(3)]
    }
}

impl Ipv4Addr {
    /// The octet at `index`, counted from the most significant.
    pub closed spec fn spec_octet(&self, index: int) -> u8 {
        if index == 0 {
            self.a
        } else if index == 1 {
            self.b
        } else if index == 2 {
            self.c
        } else {
            self.d
        }
    }

    /// The address `a.b.c.d`.
    pub fn new(a: u8, b: u8, c: u8, d: u8) -> (ip: Ipv4Addr)
        ensures
            ip@ == seq![a, b, c, d],
    {
        Ipv4Addr { a, b, c, d }
    }

    /// The address whose octets, in network order, are `octets`.
    pub fn from_octets(octets: [u8; 4]) -> (ip: Ipv4Addr)
        ensures
            ip@ == octets@,
    {
        let ip = Ipv4Addr { a: octets[0], b: octets[1], c: octets[2], d: octets[3] };
        assert(ip@ =~= octets@);
        ip
    }

    /// The four octets in network order.
    pub fn octets(&self) -> (octets: [u8; 4])
        ensures
            octets@ == self@,
    {
        let octets: [u8; 4] = [self.a, self.b, self.c, self.d];
        assert(octets@ =~= self@);
        octets
    }
}

/// An IPv4 address together with a port.
#[derive(Debug, Clone, Copy, PartialEq, Eq, Structural)]
pub struct SocketAddrV4 {
    ip: Ipv4Addr,
    port: u16,
}

impl SocketAddrV4 {
    /// The address of this socket address.
    pub closed spec fn spec_ip(&self) -> Ipv4Addr {
        self.ip
    }

    /// The port of this socket address.
    pub closed spec fn spec_port(&self) -> u16 {
        self.port
    }

    /// The socket address `ip:port`.
    pub fn new(ip: Ipv4Addr, port: u16) -> (addr: SocketAddrV4)
        ensures
            addr.spec_ip() == ip,
            addr.spec_port() == port,
    {
        SocketAddrV4 { ip, port }
    }

    /// The address of this socket address.
    pub fn ip(&self) -> (ip: &Ipv4Addr)
        ensures
            *ip == self.spec_ip(),
    {
        &self.ip
    }

    /// The port of this socket address.
    pub fn port(&self) -> (port: u16)
        ensures
            port == self.spec_port(),
    {
        self.port
    }

    /// The port as the two bytes that an address structure of the operating
    /// system holds: most significant first, whatever the machine's own
    /// byte order.
    pub fn port_bytes(&self) -> (bytes: [u8; 2])
        ensures
            bytes@ == spec_u16_to_be(self.spec_port()),
    {
        let bytes: [u8; 2] = [hi_byte(self.port), lo_byte(self.port)];
        assert(bytes@ =~= spec_u16_to_be(self.spec_port()));
        bytes
    }

    /// The socket address that an address structure of the operating system
    /// holds, given the bytes of its address and of its port as they lie in
    /// memory.
    pub fn from_network(octets: [u8; 4], port_bytes: [u8; 2]) -> (addr: SocketAddrV4)
        ensures
            addr.spec_ip()@ == octets@,
            addr.spec_port() == spec_u16_from_be(port_bytes@[0], port_bytes@[1]),
    {
        SocketAddrV4 {
            ip: Ipv4Addr::from_octets(octets),
            port: u16_from_be(port_bytes[0], port_bytes[1]),
        }
    }
}

} // verus!
