//! The UDP packet: a header and the payload it announces.

use vstd::prelude::*;
use vstd::slice::{slice_subrange, slice_to_vec};
use vstd::utf8::{decode_utf8, valid_utf8};
use crate::common::bytes::{lemma_u16_be_roundtrip, spec_hi_byte, spec_lo_byte};
use crate::common::error::UDPError;
use crate::common::net::{Ipv4Addr, SocketAddrV4};
use crate::common::traits::{FromBytes, ToBytes};
use crate::proto::checksum::{
    internet_checksum,
    lemma_checksum_never_zero,
    lemma_complement_verifies,
    lemma_sum_words_at_least,
    lemma_sum_words_update,
    spec_fold_carries,
    spec_internet_checksum,
    spec_pad,
    spec_raw_sum,
};
use crate::proto::headers::pseudo::{
    spec_encode_pseudo_header,
    spec_new_pseudo_header,
    UDPPseudoHeader,
};
use crate::proto::headers::udp::{
    lemma_encode_header_len,
    lemma_header_bytes_roundtrip,
    lemma_header_roundtrip,
    spec_decode_header,
    spec_encode_header,
    spec_new_header,
    UDPHeader,
    UDPHeaderView,
    MAX_PAYLOAD_LEN,
    UDP_HEADER_LEN,
};

verus! {

/// A UDP packet: header and payload.
#[derive(Debug)]
pub struct UDPPacket {
    pub header: UDPHeader,
    pub payload: Vec<u8>,
}

/// A packet as contracts speak of it.
pub struct UDPPacketView {
    pub header: UDPHeaderView,
    pub payload: Seq<u8>,
}

impl View for UDPPacket {
    type V = UDPPacketView;

    /// The view of the header beside the bytes of the payload: what the
    /// two public fields hold.
    open spec fn view(&self) -> UDPPacketView {
        UDPPacketView { header: self.header@, payload: self.payload@ }
    }
}

impl Clone for UDPPacket {
    /// A packet with the same header and the same payload.
    fn clone(&self) -> (copy: Self)
        ensures
            copy@ == self@,
    {
        UDPPacket { header: self.header, payload: self.payload.clone() }
    }
}

/// The text that `String::from_utf8_lossy` makes of `bytes`.
pub uninterp spec fn spec_utf8_lossy(bytes: Seq<u8>) -> Seq<char>;

/// `String::from_utf8_lossy`, made into an owned string.
///
/// The result depends on the bytes alone. Where they are valid UTF-8 it is
/// the text they encode; what stands for an invalid sequence is left to the
/// standard library.
#[verifier::external_body]
fn utf8_lossy(bytes: &[u8]) -> (text: String)
    ensures
        text@ == spec_utf8_lossy(bytes@),
        valid_utf8(bytes@) ==> text@ == decode_utf8(bytes@),
{
    String::from_utf8_lossy(bytes).into_owned()
}

/// Appends `tail` to `bytes`.
fn append(bytes: &mut Vec<u8>, tail: &[u8])
    ensures
        final(bytes)@ == old(bytes)@ + tail@,
{
    let ghost before = bytes@;
    let mut i: usize = 0;
    while i < tail.len()
        invariant
            i <= tail@.len(),
            bytes@ == before + tail@.take(i as int),
        decreases tail@.len() - i,
    {
        bytes.push(tail[i]);
        assert(tail@.take(i as int + 1) =~= tail@.take(i as int).push(tail@[i as int]));
        i = i + 1;
    }
    assert(tail@.take(i as int) =~= tail@);
}

/// A packet is well formed when its header announces exactly the header and
/// the payload that it holds.
pub open spec fn spec_well_formed(packet: UDPPacketView) -> bool {
    packet.header.length == UDP_HEADER_LEN + packet.payload.len()
}

/// The bytes that the checksum of a datagram covers: the pseudo-header, the
/// header with its checksum field zero, and the payload.
pub open spec fn spec_checksum_input(
    src_ip: Seq<u8>,
    dst_ip: Seq<u8>,
    header: UDPHeaderView,
    payload: Seq<u8>,
) -> Seq<u8> {
    spec_encode_pseudo_header(spec_new_pseudo_header(src_ip, dst_ip, header.length))
        + spec_encode_header(UDPHeaderView { checksum: 0, ..header }) + payload
}

/// The checksum of a datagram between two addresses given by their octets.
pub open spec fn spec_packet_checksum(
    src_ip: Seq<u8>,
    dst_ip: Seq<u8>,
    header: UDPHeaderView,
    payload: Seq<u8>,
) -> u16 {
    spec_internet_checksum(spec_checksum_input(src_ip, dst_ip, header, payload))
}

/// The packet that `UDPPacket::new` builds, or the reason why it builds none.
pub open spec fn spec_new_packet(
    source: SocketAddrV4,
    destination: SocketAddrV4,
    payload: Seq<u8>,
) -> Result<UDPPacketView, UDPError> {
    match spec_new_header(source.spec_port(), destination.spec_port(), payload.len()) {
        Err(error) => Err(error),
        Ok(header) => Ok(
            UDPPacketView {
                header: UDPHeaderView {
                    checksum: spec_packet_checksum(
                        source.spec_ip()@,
                        destination.spec_ip()@,
                        header,
                        payload,
                    ),
                    ..header
                },
                payload,
            },
        ),
    }
}

/// The bytes of a packet on the wire: the encoded header, then the payload.
pub open spec fn spec_encode_packet(packet: UDPPacketView) -> Seq<u8> {
    spec_encode_header(packet.header) + packet.payload
}

/// The packet that `bytes` hold, or the reason why they hold none.
pub open spec fn spec_decode_packet(bytes: Seq<u8>) -> Result<UDPPacketView, UDPError> {
    if bytes.len() < UDP_HEADER_LEN {
        Err(UDPError::TruncatedPacket)
    } else {
        match spec_decode_header(bytes.take(UDP_HEADER_LEN as int)) {
            Err(error) => Err(error),
            Ok(header) => if header.length != bytes.len() {
                Err(UDPError::LengthMismatch)
            } else {
                Ok(UDPPacketView { header, payload: bytes.skip(UDP_HEADER_LEN as int) })
            },
        }
    }
}

/// Decoding what a well-formed packet encodes to gives the packet back:
/// the same header fields and the same payload.
pub proof fn lemma_packet_roundtrip(packet: UDPPacketView)
    requires
        spec_well_formed(packet),
    ensures
        spec_encode_packet(packet).len() == packet.header.length,
        spec_decode_packet(spec_encode_packet(packet)) == Ok::<UDPPacketView, UDPError>(packet),
{
    let bytes = spec_encode_packet(packet);
    lemma_encode_header_len(packet.header);
    assert(bytes.take(UDP_HEADER_LEN as int) =~= spec_encode_header(packet.header));
    lemma_header_roundtrip(packet.header, Seq::<u8>::empty());
    assert(spec_encode_header(packet.header) + Seq::<u8>::empty() =~= spec_encode_header(
        packet.header,
    ));
    assert(bytes.skip(UDP_HEADER_LEN as int) =~= packet.payload);
}

/// Encoding the packet that some bytes decode to gives the bytes back.
pub proof fn lemma_packet_bytes_roundtrip(bytes: Seq<u8>)
    requires
        spec_decode_packet(bytes) is Ok,
    ensures
        spec_well_formed(spec_decode_packet(bytes)->Ok_0),
        spec_encode_packet(spec_decode_packet(bytes)->Ok_0) == bytes,
{
    let head = bytes.take(UDP_HEADER_LEN as int);
    lemma_header_bytes_roundtrip(head);
    assert(head + bytes.skip(UDP_HEADER_LEN as int) =~= bytes);
}

/// For every payload of at most 65527 bytes and every pair of socket
/// addresses a packet is built, its header announces eight bytes more than
/// the payload, its checksum is not zero, and decoding its encoding gives
/// the same header fields and payload.
pub proof fn lemma_new_packet_roundtrip(
    source: SocketAddrV4,
    destination: SocketAddrV4,
    payload: Seq<u8>,
)
    requires
        payload.len() <= MAX_PAYLOAD_LEN,
    ensures
        spec_new_packet(source, destination, payload) is Ok,
        spec_new_packet(source, destination, payload)->Ok_0.payload == payload,
        spec_new_packet(source, destination, payload)->Ok_0.header.source_port
            == source.spec_port(),
        spec_new_packet(source, destination, payload)->Ok_0.header.destination_port
            == destination.spec_port(),
        spec_new_packet(source, destination, payload)->Ok_0.header.length == UDP_HEADER_LEN
            + payload.len(),
        spec_new_packet(source, destination, payload)->Ok_0.header.checksum != 0,
        spec_decode_packet(
            spec_encode_packet(spec_new_packet(source, destination, payload)->Ok_0),
        ) == spec_new_packet(source, destination, payload),
{
    let packet = spec_new_packet(source, destination, payload)->Ok_0;
    let header = spec_new_header(source.spec_port(), destination.spec_port(), payload.len())->Ok_0;
    lemma_checksum_never_zero(
        spec_checksum_input(source.spec_ip()@, destination.spec_ip()@, header, payload),
    );
    lemma_packet_roundtrip(packet);
}

/// A payload of more than 65527 bytes gives no packet.
pub proof fn lemma_new_packet_too_large(
    source: SocketAddrV4,
    destination: SocketAddrV4,
    payload: Seq<u8>,
)
    requires
        payload.len() > MAX_PAYLOAD_LEN,
    ensures
        spec_new_packet(source, destination, payload) == Err::<UDPPacketView, UDPError>(
            UDPError::PayloadTooLarge,
        ),
{
}

/// The checksum of a datagram does not depend on the checksum that its
/// header holds: the header is summed with that field zero.
pub proof fn lemma_checksum_ignores_stored(
    src_ip: Seq<u8>,
    dst_ip: Seq<u8>,
    header: UDPHeaderView,
    stored: u16,
    payload: Seq<u8>,
)
    ensures
        spec_packet_checksum(src_ip, dst_ip, UDPHeaderView { checksum: stored, ..header }, payload)
            == spec_packet_checksum(src_ip, dst_ip, header, payload),
{
}

/// The folded sum that a receiver computes over a datagram as it arrived:
/// the pseudo-header, then the packet with its checksum in place.
pub open spec fn spec_received_sum(src_ip: Seq<u8>, dst_ip: Seq<u8>, packet: UDPPacketView) -> int {
    spec_fold_carries(
        spec_raw_sum(
            spec_encode_pseudo_header(spec_new_pseudo_header(src_ip, dst_ip, packet.header.length))
                + spec_encode_packet(packet),
        ),
    )
}

/// The words that the checksum of a datagram covers never sum to zero: the
/// pseudo-header holds the protocol number.
pub proof fn lemma_checksum_input_sum_positive(
    src_ip: Seq<u8>,
    dst_ip: Seq<u8>,
    header: UDPHeaderView,
    payload: Seq<u8>,
)
    requires
        src_ip.len() == 4,
        dst_ip.len() == 4,
    ensures
        spec_raw_sum(spec_checksum_input(src_ip, dst_ip, header, payload)) >= 17,
{
    let input = spec_checksum_input(src_ip, dst_ip, header, payload);
    let padded = spec_pad(input);
    assert(input.len() == 20 + payload.len());
    assert(padded[8] == 0u8);
    assert(padded[9] == 17u8);
    lemma_sum_words_at_least(padded, padded.len() as int / 2, 4);
}

/// A packet as `UDPPacket::new` builds it passes the receiver's test: summed
/// with its checksum in place, behind the pseudo-header of the same two
/// addresses, it folds to 0xFFFF.
pub proof fn lemma_new_packet_verifies(
    source: SocketAddrV4,
    destination: SocketAddrV4,
    payload: Seq<u8>,
)
    requires
        payload.len() <= MAX_PAYLOAD_LEN,
    ensures
        spec_new_packet(source, destination, payload) is Ok,
        spec_received_sum(
            source.spec_ip()@,
            destination.spec_ip()@,
            spec_new_packet(source, destination, payload)->Ok_0,
        ) == 0xFFFF,
{
    let src_ip = source.spec_ip()@;
    let dst_ip = destination.spec_ip()@;
    let packet = spec_new_packet(source, destination, payload)->Ok_0;
    let header = spec_new_header(source.spec_port(), destination.spec_port(), payload.len())->Ok_0;
    let checksum = packet.header.checksum;
    let unsummed = spec_checksum_input(src_ip, dst_ip, header, payload);
    let summed = spec_encode_pseudo_header(
        spec_new_pseudo_header(src_ip, dst_ip, packet.header.length),
    ) + spec_encode_packet(packet);
    let hi = spec_hi_byte(checksum);
    let lo = spec_lo_byte(checksum);
    assert(unsummed.len() == 20 + payload.len());
    assert(summed =~= unsummed.update(18, hi).update(19, lo));
    let padded = spec_pad(unsummed);
    assert(spec_pad(summed) =~= padded.update(18, hi).update(19, lo));
    assert(padded[18] == 0u8 && padded[19] == 0u8);
    lemma_sum_words_update(padded, padded.len() as int / 2, 9, hi, lo);
    lemma_u16_be_roundtrip(checksum);
    assert(spec_raw_sum(summed) == spec_raw_sum(unsummed) + checksum as int);
    lemma_checksum_input_sum_positive(src_ip, dst_ip, header, payload);
    lemma_complement_verifies(spec_raw_sum(unsummed));
}

impl UDPPacket {
    /// Builds the datagram that carries `payload` from `source` to
    /// `destination`.
    ///
    /// The ports go into the header; the addresses only feed the checksum.
    /// A payload of more than 65527 bytes is refused.
    pub fn new(source: &SocketAddrV4, destination: &SocketAddrV4, payload: Vec<u8>) -> (result:
        Result<Self, UDPError>)
        ensures
            match result {
                Ok(packet) => spec_new_packet(*source, *destination, payload@) == Ok::<
                    UDPPacketView,
                    UDPError,
                >(packet@),
                Err(error) => spec_new_packet(*source, *destination, payload@) == Err::<
                    UDPPacketView,
                    UDPError,
                >(error),
            },
            result is Ok <==> payload@.len() <= MAX_PAYLOAD_LEN,
            result matches Err(error) ==> error == UDPError::PayloadTooLarge,
            result matches Ok(packet) ==> spec_well_formed(packet@) && packet@.payload == payload@
                && packet@.header.checksum != 0,
    {
        let header = match UDPHeader::new(source.port(), destination.port(), payload.len()) {
            Ok(header) => header,
            Err(error) => {
                return Err(error);
            },
        };
        let mut packet = UDPPacket { header, payload };
        let checksum = packet.checksum(source.ip(), destination.ip());
        packet.header.set_checksum(checksum);
        Ok(packet)
    }

    /// Computes the checksum of this packet as sent from `src_ip` to
    /// `dst_ip`.
    ///
    /// The stored checksum plays no part: the header is summed as if the
    /// field were zero. The result is never zero.
    pub fn checksum(&self, src_ip: &Ipv4Addr, dst_ip: &Ipv4Addr) -> (checksum: u16)
        ensures
            checksum == spec_packet_checksum(src_ip@, dst_ip@, self@.header, self@.payload),
            checksum != 0,
    {
        let pseudo_header = UDPPseudoHeader::new(src_ip, dst_ip, self.header.length());
        let mut unsummed = self.header;
        unsummed.set_checksum(0);
        let mut checksum_data = pseudo_header.encode();
        append(&mut checksum_data, unsummed.encode().as_slice());
        append(&mut checksum_data, self.payload.as_slice());
        assert(checksum_data@ =~= spec_checksum_input(
            src_ip@,
            dst_ip@,
            self@.header,
            self@.payload,
        ));
        internet_checksum(checksum_data.as_slice())
    }

    /// The bytes of the packet on the wire: the header, then the payload.
    pub fn encode(&self) -> (bytes: Vec<u8>)
        ensures
            bytes@ == spec_encode_packet(self@),
            bytes@.len() == UDP_HEADER_LEN + self@.payload.len(),
    {
        let mut bytes = self.header.encode();
        append(&mut bytes, self.payload.as_slice());
        bytes
    }

    /// The header of this packet.
    pub fn header(&self) -> (header: &UDPHeader)
        ensures
            header@ == self@.header,
    {
        &self.header
    }

    /// The payload of this packet.
    pub fn payload(&self) -> (payload: &[u8])
        ensures
            payload@ == self@.payload,
    {
        self.payload.as_slice()
    }

    /// The payload as text, with whatever is not valid UTF-8 replaced as
    /// `String::from_utf8_lossy` replaces it.
    pub fn to_string(&self) -> (text: String)
        ensures
            text@ == spec_utf8_lossy(self@.payload),
            valid_utf8(self@.payload) ==> text@ == decode_utf8(self@.payload),
    {
        utf8_lossy(self.payload.as_slice())
    }
}

impl ToBytes for UDPPacket {
    open spec fn spec_to_bytes(&self) -> Result<Seq<u8>, UDPError> {
        Ok(spec_encode_packet(self@))
    }

    /// Writes the header, then the payload. This never fails.
    fn to_bytes(&self) -> (result: Result<Vec<u8>, UDPError>)
        ensures
            result is Ok,
            result matches Ok(bytes) ==> bytes@.len() == UDP_HEADER_LEN + self@.payload.len(),
    {
        Ok(self.encode())
    }
}

impl FromBytes for UDPPacket {
    open spec fn spec_from_bytes(bytes: Seq<u8>) -> Result<UDPPacketView, UDPError> {
        spec_decode_packet(bytes)
    }

    /// Reads a packet from `bytes`, which must hold exactly the header and
    /// the payload that the header announces. The checksum is not verified.
    fn from_bytes(bytes: &[u8]) -> (result: Result<Self, UDPError>)
        ensures
            result matches Ok(packet) ==> spec_well_formed(packet@),
    {
        if bytes.len() < UDP_HEADER_LEN {
            return Err(UDPError::TruncatedPacket);
        }
        let header = match UDPHeader::from_bytes(slice_subrange(bytes, 0, UDP_HEADER_LEN)) {
            Ok(header) => header,
            Err(error) => {
                return Err(error);
            },
        };
        assert(bytes@.subrange(0, UDP_HEADER_LEN as int) =~= bytes@.take(UDP_HEADER_LEN as int));
        if header.length() as usize != bytes.len() {
            return Err(UDPError::LengthMismatch);
        }
        let payload = slice_to_vec(slice_subrange(bytes, UDP_HEADER_LEN, bytes.len()));
        assert(payload@ =~= bytes@.skip(UDP_HEADER_LEN as int));
        Ok(UDPPacket { header, payload })
    }
}

} // verus!
