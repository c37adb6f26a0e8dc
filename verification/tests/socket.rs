use rawudp::common::error::UDPError;
use rawudp::common::net::{Ipv4Addr, SocketAddrV4};
use rawudp::common::traits::ToBytes;
use rawudp::proto::packet::UDPPacket;
use rawudp::proto::socket::{SocketSetup, UDPSocket, IP_HEADER_LEN};

fn localhost(port: u16) -> SocketAddrV4 {
    SocketAddrV4::new(Ipv4Addr::new(127, 0, 0, 1), port)
}

fn bound(port: u16, handle: i32) -> UDPSocket {
    match UDPSocket::new(localhost(port)).advance(handle, 0).advance(0, 0) {
        SocketSetup::Bound { transport } => transport,
        other => panic!("not bound: {:?}", other.is_done()),
    }
}

/// What the kernel hands to a raw socket: an IPv4 header of 20 bytes, then
/// the datagram.
fn delivered(datagram: &[u8]) -> Vec<u8> {
    let total = (IP_HEADER_LEN + datagram.len()) as u16;
    let mut bytes = vec![
        0x45, 0, (total >> 8) as u8, total as u8, 0, 0, 0, 0, 64, 17, 0, 0, 127, 0, 0, 1, 127, 0,
        0, 1,
    ];
    bytes.extend_from_slice(datagram);
    bytes
}

#[test]
fn setup_begins_unbound() {
    match UDPSocket::new(localhost(9001)) {
        SocketSetup::Unbound { addr } => assert_eq!(addr, localhost(9001)),
        _ => panic!("construction must begin unbound"),
    }
    assert!(!UDPSocket::new(localhost(9001)).is_done());
}

#[test]
fn setup_creates_then_binds() {
    let setup = UDPSocket::new(localhost(9001)).advance(5, 0);
    match &setup {
        SocketSetup::Opened { socket, addr } => {
            assert_eq!(*socket, 5);
            assert_eq!(*addr, localhost(9001));
        },
        _ => panic!("a created socket is to be bound next"),
    }
    assert!(!setup.is_done());
    let setup = setup.advance(0, 0);
    assert!(setup.is_done());
    match setup {
        SocketSetup::Bound { transport } => {
            assert_eq!(transport.socket(), 5);
            assert_eq!(*transport.local_addr(), localhost(9001));
        },
        _ => panic!("a bound socket is a transport"),
    }
}

#[test]
fn setup_accepts_handle_zero() {
    match UDPSocket::new(localhost(1)).advance(0, 0) {
        SocketSetup::Opened { socket, .. } => assert_eq!(socket, 0),
        _ => panic!("zero is a handle"),
    }
}

#[test]
fn setup_reports_a_socket_that_cannot_be_created() {
    match UDPSocket::new(localhost(9001)).advance(-1, 1) {
        SocketSetup::Failed { error, release } => {
            assert_eq!(error, UDPError::SocketCreateFailed(1));
            assert_eq!(release, None);
        },
        _ => panic!("construction must fail"),
    }
}

#[test]
fn setup_reports_a_failed_bind_and_hands_the_socket_back() {
    match UDPSocket::new(localhost(9001)).advance(7, 0).advance(-1, 98) {
        SocketSetup::Failed { error, release } => {
            assert_eq!(error, UDPError::BindFailed(98));
            assert_eq!(release, Some(7));
        },
        _ => panic!("construction must fail"),
    }
}

#[test]
fn setup_stays_as_it_ended() {
    match UDPSocket::new(localhost(9001)).advance(-1, 13).advance(4, 0).advance(0, 0) {
        SocketSetup::Failed { error, release } => {
            assert_eq!(error, UDPError::SocketCreateFailed(13));
            assert_eq!(release, None);
        },
        _ => panic!("a failed construction stays failed"),
    }
    match UDPSocket::new(localhost(9001)).advance(4, 0).advance(0, 0).advance(-1, 9) {
        SocketSetup::Bound { transport } => assert_eq!(transport.socket(), 4),
        _ => panic!("a bound transport stays bound"),
    }
}

#[test]
fn close_gives_the_handle_back() {
    assert_eq!(bound(9001, 11).close(), 11);
}

#[test]
fn send_asks_for_the_encoded_packet_to_be_written() {
    let transport = bound(9001, 3);
    let transmit = transport.send(b"PING".to_vec(), &localhost(9002)).unwrap();
    assert_eq!(transmit.socket, 3);
    assert_eq!(transmit.addr, localhost(9002));
    assert_eq!(transmit.data, vec![35, 41, 35, 42, 0, 12, 28, 240, 80, 73, 78, 71]);
    let packet = UDPPacket::new(&localhost(9001), &localhost(9002), b"PING".to_vec()).unwrap();
    assert_eq!(transmit.data, packet.to_bytes().unwrap());
}

#[test]
fn send_accepts_the_longest_payload() {
    let transport = bound(9001, 3);
    let transmit = transport.send(vec![1; 65527], &localhost(9002)).unwrap();
    assert_eq!(transmit.data.len(), 65535);
}

#[test]
fn send_refuses_an_oversize_payload() {
    let transport = bound(9001, 3);
    let result = transport.send(vec![0; 65528], &localhost(9002));
    assert_eq!(result.err(), Some(UDPError::EncodeFailed));
}

#[test]
fn send_packet_writes_what_the_packet_encodes_to() {
    let transport = bound(9001, 3);
    let packet = UDPPacket::new(&localhost(1), &localhost(2), b"abc".to_vec()).unwrap();
    let transmit = transport.send_packet(&packet, &localhost(2)).unwrap();
    assert_eq!(transmit.socket, 3);
    assert_eq!(transmit.addr, localhost(2));
    assert_eq!(transmit.data, packet.to_bytes().unwrap());
}

#[test]
fn sent_counts_the_bytes() {
    let transport = bound(9001, 3);
    assert_eq!(transport.sent(12, 0), Ok(12));
    assert_eq!(transport.sent(0, 0), Ok(0));
}

#[test]
fn sent_reports_the_error_of_the_operating_system() {
    let transport = bound(9001, 3);
    assert_eq!(transport.sent(-1, 1), Err(UDPError::TransmitFailed(1)));
}

#[test]
fn receive_reports_the_error_of_the_operating_system() {
    let transport = bound(9002, 4);
    let result = transport.receive_packet(&[0; 64], -1, 4, localhost(0));
    assert_eq!(result.err(), Some(UDPError::ReceiveFailed(4)));
}

#[test]
fn receive_skips_the_ip_header() {
    let transport = bound(9002, 4);
    let datagram = [0, 1, 0, 2, 0, 10, 0, 0, b'h', b'i'];
    let mut buffer = delivered(&datagram);
    let count = buffer.len() as isize;
    buffer.resize(1024, 0);
    let (packet, sender) = transport.receive_packet(&buffer, count, 0, localhost(0)).unwrap();
    assert_eq!(packet.header().source_port(), 1);
    assert_eq!(packet.header().destination_port(), 2);
    assert_eq!(packet.payload, b"hi".to_vec());
    assert_eq!(sender, localhost(0));
}

#[test]
fn receive_of_less_than_an_ip_header_is_truncated() {
    let transport = bound(9002, 4);
    let result = transport.receive_packet(&[0x45; 64], 19, 0, localhost(0));
    assert_eq!(result.err(), Some(UDPError::TruncatedPacket));
    let result = transport.receive_packet(&[0x45; 64], 0, 0, localhost(0));
    assert_eq!(result.err(), Some(UDPError::TruncatedPacket));
}

#[test]
fn receive_of_a_short_datagram_is_truncated() {
    let transport = bound(9002, 4);
    let result = transport.receive_packet(&[0; 64], 27, 0, localhost(0));
    assert_eq!(result.err(), Some(UDPError::TruncatedPacket));
}

#[test]
fn receive_of_a_datagram_cut_short_is_a_mismatch() {
    let transport = bound(9002, 4);
    let buffer = delivered(&[0, 1, 0, 2, 0, 10, 0, 0, b'h', b'i']);
    let result = transport.receive_packet(&buffer, 29, 0, localhost(0));
    assert_eq!(result.err(), Some(UDPError::LengthMismatch));
}

#[test]
fn receive_reads_no_further_than_the_buffer() {
    let transport = bound(9002, 4);
    let buffer = delivered(&[0, 1, 0, 2, 0, 10, 0, 0, b'h', b'i']);
    let (packet, _) = transport.receive_packet(&buffer, 4096, 0, localhost(0)).unwrap();
    assert_eq!(packet.payload, b"hi".to_vec());
}

#[test]
fn ping_travels_from_one_transport_to_another() {
    let a = bound(9001, 3);
    let b = bound(9002, 4);
    let transmit = a.send(b"PING".to_vec(), b.local_addr()).unwrap();
    assert_eq!(transmit.addr, localhost(9002));
    assert_eq!(a.sent(transmit.data.len() as isize, 0), Ok(12));

    // The kernel delivers the datagram behind an IP header and reports the
    // sender's address without a port.
    let mut buffer = delivered(&transmit.data);
    let count = buffer.len() as isize;
    buffer.resize(1024, 0);
    let reported = SocketAddrV4::from_network([127, 0, 0, 1], [0, 0]);
    let (packet, sender) = b.receive_packet(&buffer, count, 0, reported).unwrap();

    assert_eq!(packet.to_string(), "PING");
    assert_eq!(packet.payload, b"PING".to_vec());
    assert_eq!(sender.ip().octets(), [127, 0, 0, 1]);
    assert_eq!(*sender.ip(), Ipv4Addr::new(127, 0, 0, 1));
    assert_eq!(packet.header().source_port(), 9001);
    assert_eq!(packet.header().destination_port(), 9002);
}

#[test]
fn received_gives_the_datagram_without_its_ip_header() {
    let transport = bound(9002, 4);
    let datagram = [0, 1, 0, 2, 0, 10, 0, 0, b'h', b'i'];
    let mut buffer = delivered(&datagram);
    let count = buffer.len() as isize;
    buffer.resize(64, 0xEE);
    assert_eq!(transport.received(&buffer, count, 0), Ok(&datagram[..]));
}

#[test]
fn received_of_less_than_an_ip_header_is_empty() {
    let transport = bound(9002, 4);
    assert_eq!(transport.received(&[7; 64], 19, 0), Ok(&[][..]));
    assert_eq!(transport.received(&[7; 64], 20, 0), Ok(&[][..]));
    assert_eq!(transport.received(&[7; 64], 21, 0), Ok(&[7u8][..]));
}

#[test]
fn received_reads_no_further_than_the_buffer() {
    let transport = bound(9002, 4);
    assert_eq!(transport.received(&[7; 24], 4096, 0), Ok(&[7u8; 4][..]));
}

#[test]
fn received_reports_the_error_of_the_operating_system() {
    let transport = bound(9002, 4);
    assert_eq!(transport.received(&[0; 64], -1, 11), Err(UDPError::ReceiveFailed(11)));
}

#[test]
fn send_packet_asks_for_one_write_of_every_byte() {
    let transport = bound(9001, 3);
    let packet = UDPPacket::new(&localhost(9001), &localhost(9002), vec![9; 300]).unwrap();
    let transmit = transport.send_packet(&packet, &localhost(9002)).unwrap();
    assert_eq!(transmit.data.len(), 308);
    assert_eq!(transmit.data, packet.encode());
    assert_eq!(transmit.addr.ip().octets(), [127, 0, 0, 1]);
    assert_eq!(transmit.addr.port_bytes(), [0x23, 0x2A]);
    assert_eq!(transport.sent(308, 0), Ok(308));
}
