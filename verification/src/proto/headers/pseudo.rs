//! The twelve-byte IPv4 pseudo-header.
//!
//! It is never sent: it only feeds the checksum, so that a receiver can tell
//! whether a datagram reached the addresses it was meant for.

use vstd::prelude::*;
use crate::common::bytes::{hi_byte, lo_byte, spec_u16_to_be};
use crate::common::error::UDPError;
use crate::common::net::Ipv4Addr;
use crate::common::traits::ToBytes;

verus! {

/// The protocol number of UDP.
pub const UDP_PROTOCOL: u8 = 17;

/// The number of bytes of a pseudo-header.
pub const PSEUDO_HEADER_LEN: usize = 12;

/// The pseudo-header of one datagram.
pub struct UDPPseudoHeader {
    src_addr: [u8; 4],
    dst_addr: [u8; 4],
    zeros: u8,
    /// Always 17.
    protocol: u8,
    /// Length of UDP header and payload together.
    udp_length: u16,
}

/// The fields of a pseudo-header, as contracts speak of them.
pub struct UDPPseudoHeaderView {
    pub src_addr: Seq<u8>,
    pub dst_addr: Seq<u8>,
    pub zeros: u8,
    pub protocol: u8,
    pub udp_length: u16,
}

impl View for UDPPseudoHeader {
    type V = UDPPseudoHeaderView;

    closed spec fn view(&self) -> UDPPseudoHeaderView {
        UDPPseudoHeaderView {
            src_addr: self.src_addr@,
            dst_addr: self.dst_addr@,
            zeros: self.zeros,
            protocol: self.protocol,
            udp_length: self.udp_length,
        }
    }
}

/// The pseudo-header of a datagram of `udp_length` bytes between two
/// addresses given by their octets.
pub open spec fn spec_new_pseudo_header(
    src_ip: Seq<u8>,
    dst_ip: Seq<u8>,
    udp_length: u16,
) -> UDPPseudoHeaderView {
    UDPPseudoHeaderView {
        src_addr: src_ip,
        dst_addr: dst_ip,
        zeros: 0,
        protocol: UDP_PROTOCOL,
        udp_length,
    }
}

/// The bytes of a pseudo-header: source address, destination address, the
/// zero byte, the protocol number and the length in network byte order.
pub open spec fn spec_encode_pseudo_header(header: UDPPseudoHeaderView) -> Seq<u8> {
    header.src_addr + header.dst_addr + seq![header.zeros, header.protocol] + spec_u16_to_be(
        header.udp_length,
    )
}

impl UDPPseudoHeader {
    /// Builds the pseudo-header of a datagram of `udp_length` bytes from
    /// `src_ip` to `dst_ip`.
    pub fn new(src_ip: &Ipv4Addr, dst_ip: &Ipv4Addr, udp_length: u16) -> (header: Self)
        ensures
            header@ == spec_new_pseudo_header(src_ip@, dst_ip@, udp_length),
    {
        UDPPseudoHeader {
            src_addr: src_ip.octets(),
            dst_addr: dst_ip.octets(),
            zeros: 0,
            protocol: UDP_PROTOCOL,
            udp_length,
        }
    }

    /// The twelve bytes of the pseudo-header, as the checksum reads them.
    pub fn encode(&self) -> (bytes: Vec<u8>)
        ensures
            bytes@ == spec_encode_pseudo_header(self@),
            bytes@.len() == PSEUDO_HEADER_LEN,
    {
        let mut header: Vec<u8> = Vec::with_capacity(PSEUDO_HEADER_LEN);
        header.push(self.src_addr[0]);
        header.push(self.src_addr[1]);
        header.push(self.src_addr[2]);
        header.push(self.src_addr[3]);
        header.push(self.dst_addr[0]);
        header.push(self.dst_addr[1]);
        header.push(self.dst_addr[2]);
        header.push(self.dst_addr[3]);
        header.push(self.zeros);
        header.push(self.protocol);
        header.push(hi_byte(self.udp_length));
        header.push(lo_byte(self.udp_length));
        assert(header@ =~= spec_encode_pseudo_header(self@));
        header
    }
}

impl ToBytes for UDPPseudoHeader {
    open spec fn spec_to_bytes(&self) -> Result<Seq<u8>, UDPError> {
        Ok(spec_encode_pseudo_header(self@))
    }

    /// Writes the pseudo-header as its twelve bytes. This never fails.
    fn to_bytes(&self) -> (result: Result<Vec<u8>, UDPError>)
        ensures
            result is Ok,
            result matches Ok(bytes) ==> bytes@.len() == PSEUDO_HEADER_LEN,
    {
        Ok(self.encode())
    }
}

/// The pseudo-header of two four-octet addresses is twelve bytes long and
/// holds the zero byte at offset 8 and the protocol number 17 at offset 9.
pub proof fn lemma_encode_pseudo_header_layout(src_ip: Seq<u8>, dst_ip: Seq<u8>, udp_length: u16)
    requires
        src_ip.len() == 4,
        dst_ip.len() == 4,
    ensures
        spec_encode_pseudo_header(spec_new_pseudo_header(src_ip, dst_ip, udp_length)).len()
            == PSEUDO_HEADER_LEN,
        spec_encode_pseudo_header(spec_new_pseudo_header(src_ip, dst_ip, udp_length)).subrange(0, 4)
            == src_ip,
        spec_encode_pseudo_header(spec_new_pseudo_header(src_ip, dst_ip, udp_length)).subrange(4, 8)
            == dst_ip,
        spec_encode_pseudo_header(spec_new_pseudo_header(src_ip, dst_ip, udp_length))[8] == 0,
        spec_encode_pseudo_header(spec_new_pseudo_header(src_ip, dst_ip, udp_length))[9] == 0x11,
        spec_encode_pseudo_header(spec_new_pseudo_header(src_ip, dst_ip, udp_length)).subrange(
            10,
            12,
        ) == spec_u16_to_be(udp_length),
{
    let bytes = spec_encode_pseudo_header(spec_new_pseudo_header(src_ip, dst_ip, udp_length));
    assert(bytes.subrange(0, 4) =~= src_ip);
    assert(bytes.subrange(4, 8) =~= dst_ip);
    assert(bytes.subrange(10, 12) =~= spec_u16_to_be(udp_length));
}

} // verus!
