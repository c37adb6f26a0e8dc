//! The eight-byte UDP header.
//!
//! On the wire the four fields follow one another, each in network byte
//! order: source port at offset 0, destination port at 2, length at 4 and
//! checksum at 6.

use vstd::prelude::*;
use crate::common::bytes::{
    hi_byte,
    lo_byte,
    spec_u16_from_be,
    spec_u16_to_be,
    u16_from_be,
};
use crate::common::error::UDPError;
use crate::common::traits::{FromBytes, ToBytes};

verus! {

/// The number of bytes of a UDP header.
pub const UDP_HEADER_LEN: usize = 8;

/// The longest payload that a UDP length field can account for.
pub const MAX_PAYLOAD_LEN: usize = 65527;

/// A UDP header.
#[derive(Debug, Clone, Copy, PartialEq, Eq, Structural)]
pub struct UDPHeader {
    source_port: u16,
    destination_port: u16,
    /// Length of header and payload together, in bytes.
    pub(crate) length: u16,
    /// Zero until the owning packet has computed it.
    checksum: u16,
}

/// The four fields of a header, as contracts speak of them.
pub struct UDPHeaderView {
    pub source_port: u16,
    pub destination_port: u16,
    pub length: u16,
    pub checksum: u16,
}

impl View for UDPHeader {
    type V = UDPHeaderView;

    closed spec fn view(&self) -> UDPHeaderView {
        UDPHeaderView {
            source_port: self.source_port,
            destination_port: self.destination_port,
            length: self.length,
            checksum: self.checksum,
        }
    }
}

/// The header that `UDPHeader::new` builds for a payload of `payload_length`
/// bytes, or the reason why it builds none.
pub open spec fn spec_new_header(
    source_port: u16,
    destination_port: u16,
    payload_length: nat,
) -> Result<UDPHeaderView, UDPError> {
    if UDP_HEADER_LEN + payload_length > u16::MAX {
        Err(UDPError::PayloadTooLarge)
    } else {
        Ok(
            UDPHeaderView {
                source_port,
                destination_port,
                length: (UDP_HEADER_LEN + payload_length) as u16,
                checksum: 0,
            },
        )
    }
}

/// The eight bytes of a header on the wire.
pub open spec fn spec_encode_header(header: UDPHeaderView) -> Seq<u8> {
    spec_u16_to_be(header.source_port) + spec_u16_to_be(header.destination_port) + spec_u16_to_be(
        header.length,
    ) + spec_u16_to_be(header.checksum)
}

/// The header that the first eight bytes of `bytes` hold.
pub open spec fn spec_decode_header(bytes: Seq<u8>) -> Result<UDPHeaderView, UDPError> {
    if bytes.len() < UDP_HEADER_LEN {
        Err(UDPError::TruncatedHeader)
    } else {
        Ok(
            UDPHeaderView {
                source_port: spec_u16_from_be(bytes[0], bytes[1]),
                destination_port: spec_u16_from_be(bytes[2], bytes[3]),
                length: spec_u16_from_be(bytes[4], bytes[5]),
                checksum: spec_u16_from_be(bytes[6], bytes[7]),
            },
        )
    }
}

impl UDPHeader {
    /// Builds the header of a datagram that carries `payload_length` bytes.
    ///
    /// The length field counts the header too, so a payload of more than
    /// 65527 bytes is refused. The checksum starts as zero.
    pub fn new(source_port: u16, destination_port: u16, payload_length: usize) -> (result: Result<
        Self,
        UDPError,
    >)
        ensures
            match result {
                Ok(header) => spec_new_header(source_port, destination_port, payload_length as nat)
                    == Ok::<UDPHeaderView, UDPError>(header@),
                Err(error) => spec_new_header(source_port, destination_port, payload_length as nat)
                    == Err::<UDPHeaderView, UDPError>(error),
            },
            result is Ok <==> payload_length <= MAX_PAYLOAD_LEN,
            result matches Ok(header) ==> header@.length == UDP_HEADER_LEN + payload_length
                && header@.checksum == 0,
    {
        if payload_length > MAX_PAYLOAD_LEN {
            return Err(UDPError::PayloadTooLarge);
        }
        let total_length: usize = payload_length + UDP_HEADER_LEN;
        Ok(
            UDPHeader {
                source_port,
                destination_port,
                length: total_length as u16,
                checksum: 0,
            },
        )
    }

    /// Stores `checksum`; the other fields stay as they are.
    pub fn set_checksum(&mut self, checksum: u16)
        ensures
            final(self)@ == (UDPHeaderView { checksum, ..old(self)@ }),
    {
        self.checksum = checksum;
    }

    /// The source port.
    pub fn source_port(&self) -> (port: u16)
        ensures
            port == self@.source_port,
    {
        self.source_port
    }

    /// The destination port.
    pub fn destination_port(&self) -> (port: u16)
        ensures
            port == self@.destination_port,
    {
        self.destination_port
    }

    /// The length of header and payload together, as the header states it.
    pub fn length(&self) -> (length: u16)
        ensures
            length == self@.length,
    {
        self.length
    }

    /// The stored checksum.
    pub fn checksum(&self) -> (checksum: u16)
        ensures
            checksum == self@.checksum,
    {
        self.checksum
    }

    /// The eight bytes of the header on the wire.
    pub fn encode(&self) -> (bytes: Vec<u8>)
        ensures
            bytes@ == spec_encode_header(self@),
            bytes@.len() == UDP_HEADER_LEN,
    {
        let mut header: Vec<u8> = Vec::with_capacity(UDP_HEADER_LEN);
        header.push(hi_byte(self.source_port));
        header.push(lo_byte(self.source_port));
        header.push(hi_byte(self.destination_port));
        header.push(lo_byte(self.destination_port));
        header.push(hi_byte(self.length));
        header.push(lo_byte(self.length));
        header.push(hi_byte(self.checksum));
        header.push(lo_byte(self.checksum));
        assert(header@ =~= spec_encode_header(self@));
        header
    }
}

impl FromBytes for UDPHeader {
    open spec fn spec_from_bytes(bytes: Seq<u8>) -> Result<UDPHeaderView, UDPError> {
        spec_decode_header(bytes)
    }

    /// Reads a header from the first eight bytes of `bytes`.
    fn from_bytes(bytes: &[u8]) -> (result: Result<Self, UDPError>)
        ensures
            result is Ok <==> bytes@.len() >= UDP_HEADER_LEN,
            result matches Err(error) ==> error == UDPError::TruncatedHeader,
    {
        if bytes.len() < UDP_HEADER_LEN {
            return Err(UDPError::TruncatedHeader);
        }
        let source_port = u16_from_be(bytes[0], bytes[1]);
        let destination_port = u16_from_be(bytes[2], bytes[3]);
        let length = u16_from_be(bytes[4], bytes[5]);
        let checksum = u16_from_be(bytes[6], bytes[7]);
        Ok(UDPHeader { source_port, destination_port, length, checksum })
    }
}

impl ToBytes for UDPHeader {
    open spec fn spec_to_bytes(&self) -> Result<Seq<u8>, UDPError> {
        Ok(spec_encode_header(self@))
    }

    /// Writes the header as its eight bytes. This never fails.
    fn to_bytes(&self) -> (result: Result<Vec<u8>, UDPError>)
        ensures
            result is Ok,
            result matches Ok(bytes) ==> bytes@.len() == UDP_HEADER_LEN,
    {
        Ok(self.encode())
    }
}

/// An encoded header is eight bytes long.
pub proof fn lemma_encode_header_len(header: UDPHeaderView)
    ensures
        spec_encode_header(header).len() == UDP_HEADER_LEN,
{
}

/// Decoding an encoded header gives the header back, whatever follows the
/// eight bytes.
pub proof fn lemma_header_roundtrip(header: UDPHeaderView, rest: Seq<u8>)
    ensures
        spec_decode_header(spec_encode_header(header) + rest) == Ok::<UDPHeaderView, UDPError>(
            header,
        ),
{
    let bytes = spec_encode_header(header) + rest;
    assert(bytes.len() >= 8);
    let decoded = spec_decode_header(bytes)->Ok_0;
    assert(decoded.source_port == header.source_port);
    assert(decoded.destination_port == header.destination_port);
    assert(decoded.length == header.length);
    assert(decoded.checksum == header.checksum);
}

/// Encoding the header that eight bytes decode to gives the eight bytes back.
pub proof fn lemma_header_bytes_roundtrip(bytes: Seq<u8>)
    requires
        bytes.len() == UDP_HEADER_LEN,
    ensures
        spec_decode_header(bytes) is Ok,
        spec_encode_header(spec_decode_header(bytes)->Ok_0) == bytes,
{
    assert(spec_encode_header(spec_decode_header(bytes)->Ok_0) =~= bytes);
}

} // verus!
