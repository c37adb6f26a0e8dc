//! The raw transport, without its system calls.
//!
//! A transport owns a raw IPv4 socket for protocol 17, bound to a local
//! address. The system calls themselves are the caller's: this module says
//! which call comes next, what to hand it, and what its result means.
//!
//! A transport is brought up through [`SocketSetup`], lives as a
//! [`UDPSocket`], and ends in [`UDPSocket::close`], which takes the
//! transport and gives back the handle to release. Nothing else hands the
//! handle out for release, so it is closed once.

use vstd::prelude::*;
use vstd::slice::slice_subrange;
use crate::common::error::UDPError;
use crate::common::net::SocketAddrV4;
use crate::common::traits::{FromBytes, ToBytes};
use crate::proto::headers::udp::{MAX_PAYLOAD_LEN, UDP_HEADER_LEN};
use crate::proto::packet::{
    lemma_new_packet_roundtrip,
    spec_decode_packet,
    spec_encode_packet,
    spec_new_packet,
    UDPPacket,
    UDPPacketView,
};

verus! {

/// The bytes that the kernel puts in front of a datagram read from a raw
/// socket: an IPv4 header without options.
pub const IP_HEADER_LEN: usize = 20;

/// A raw UDP transport bound to a local address.
pub struct UDPSocket {
    socket: i32,
    addr: SocketAddrV4,
}

/// How far the construction of a transport has come.
///
/// `Unbound` asks for a raw IPv4 socket of protocol 17 to be created,
/// `Opened` for that socket to be bound to `addr`. `Bound` and `Failed` end
/// the construction; in `Failed`, `release` is the handle that was created
/// and is still to be closed, if there is one.
pub enum SocketSetup {
    Unbound { addr: SocketAddrV4 },
    Opened { socket: i32, addr: SocketAddrV4 },
    Bound { transport: UDPSocket },
    Failed { error: UDPError, release: Option<i32> },
}

/// One blocking write for the caller to issue: `data` goes to `addr`
/// through `socket`.
pub struct Transmit {
    pub socket: i32,
    pub data: Vec<u8>,
    pub addr: SocketAddrV4,
}

/// What is left of a datagram read from a raw socket once the IP header in
/// front of it is skipped.
pub open spec fn spec_strip_ip_header(datagram: Seq<u8>) -> Seq<u8> {
    if datagram.len() >= IP_HEADER_LEN {
        datagram.skip(IP_HEADER_LEN as int)
    } else {
        Seq::<u8>::empty()
    }
}

/// The bytes that a read has filled in, given what the call returned.
pub open spec fn spec_received(buffer: Seq<u8>, ret: int) -> Seq<u8> {
    if ret >= buffer.len() {
        buffer
    } else {
        buffer.take(ret)
    }
}

/// What a read means: the packet and its sender, or the error.
pub open spec fn spec_receive_packet(
    buffer: Seq<u8>,
    ret: int,
    os_error: i32,
    sender: SocketAddrV4,
) -> Result<(UDPPacketView, SocketAddrV4), UDPError> {
    if ret < 0 {
        Err(UDPError::ReceiveFailed(os_error))
    } else {
        match spec_decode_packet(spec_strip_ip_header(spec_received(buffer, ret))) {
            Ok(packet) => Ok((packet, sender)),
            Err(error) => Err(error),
        }
    }
}

impl SocketSetup {
    /// Takes the result of the system call that this state asked for and
    /// gives the next state.
    ///
    /// `ret` is what the call returned and `os_error` the error code that
    /// the operating system left behind; a negative `ret` means failure.
    /// A socket that cannot be created ends the construction with
    /// `SocketCreateFailed` and nothing to release; one that cannot be
    /// bound ends it with `BindFailed` and the socket to release. `Bound`
    /// and `Failed` stay as they are.
    pub fn advance(self, ret: i32, os_error: i32) -> (next: SocketSetup)
        ensures
            match self {
                SocketSetup::Unbound { addr } => if ret < 0 {
                    next == (SocketSetup::Failed {
                        error: UDPError::SocketCreateFailed(os_error),
                        release: None,
                    })
                } else {
                    next == (SocketSetup::Opened { socket: ret, addr })
                },
                SocketSetup::Opened { socket, addr } => if ret < 0 {
                    next == (SocketSetup::Failed {
                        error: UDPError::BindFailed(os_error),
                        release: Some(socket),
                    })
                } else {
                    next matches SocketSetup::Bound { transport } && transport.spec_socket()
                        == socket && transport.spec_local_addr() == addr
                },
                SocketSetup::Bound { .. } => next == self,
                SocketSetup::Failed { .. } => next == self,
            },
    {
        match self {
            SocketSetup::Unbound { addr } => {
                if ret < 0 {
                    SocketSetup::Failed {
                        error: UDPError::SocketCreateFailed(os_error),
                        release: None,
                    }
                } else {
                    SocketSetup::Opened { socket: ret, addr }
                }
            },
            SocketSetup::Opened { socket, addr } => {
                if ret < 0 {
                    SocketSetup::Failed {
                        error: UDPError::BindFailed(os_error),
                        release: Some(socket),
                    }
                } else {
                    SocketSetup::Bound { transport: UDPSocket { socket, addr } }
                }
            },
            SocketSetup::Bound { transport } => SocketSetup::Bound { transport },
            SocketSetup::Failed { error, release } => SocketSetup::Failed { error, release },
        }
    }

    /// Whether the construction has ended, well or badly.
    pub fn is_done(&self) -> (done: bool)
        ensures
            done <==> (self is Bound || self is Failed),
    {
        match self {
            SocketSetup::Unbound { .. } => false,
            SocketSetup::Opened { .. } => false,
            SocketSetup::Bound { .. } => true,
            SocketSetup::Failed { .. } => true,
        }
    }
}

impl UDPSocket {
    /// The handle of the socket.
    pub closed spec fn spec_socket(&self) -> i32 {
        self.socket
    }

    /// The local address that the socket is bound to.
    pub closed spec fn spec_local_addr(&self) -> SocketAddrV4 {
        self.addr
    }

    /// Starts the construction of a transport for the local address `addr`.
    ///
    /// Nothing exists yet: the state that comes back asks for the socket to
    /// be created.
    pub fn new(addr: SocketAddrV4) -> (setup: SocketSetup)
        ensures
            setup == (SocketSetup::Unbound { addr }),
    {
        SocketSetup::Unbound { addr }
    }

    /// The handle of the socket.
    pub fn socket(&self) -> (socket: i32)
        ensures
            socket == self.spec_socket(),
    {
        self.socket
    }

    /// The local address that the socket is bound to.
    pub fn local_addr(&self) -> (addr: &SocketAddrV4)
        ensures
            *addr == self.spec_local_addr(),
    {
        &self.addr
    }

    /// Encodes `packet` and asks for all of its bytes to be written to
    /// `addr` in one write.
    ///
    /// The write is asked for exactly where the packet can be encoded; a
    /// packet that cannot gives `EncodeFailed`.
    pub fn send_packet<P: ToBytes>(&self, packet: &P, addr: &SocketAddrV4) -> (result: Result<
        Transmit,
        UDPError,
    >)
        ensures
            result is Ok <==> packet.spec_to_bytes() is Ok,
            result matches Ok(transmit) ==> transmit.socket == self.spec_socket()
                && transmit.addr == *addr && packet.spec_to_bytes() == Ok::<Seq<u8>, UDPError>(
                transmit.data@,
            ),
            result matches Err(error) ==> error == UDPError::EncodeFailed,
    {
        match packet.to_bytes() {
            Ok(data) => Ok(Transmit { socket: self.socket, data, addr: *addr }),
            Err(_) => Err(UDPError::EncodeFailed),
        }
    }

    /// Builds the datagram that carries `payload` from the local address to
    /// `addr` and asks for it to be written there.
    ///
    /// A payload of more than 65527 bytes gives `EncodeFailed`, before any
    /// system call is asked for.
    pub fn send(&self, payload: Vec<u8>, addr: &SocketAddrV4) -> (result: Result<
        Transmit,
        UDPError,
    >)
        ensures
            result is Ok <==> payload@.len() <= MAX_PAYLOAD_LEN,
            result matches Ok(transmit) ==> transmit.socket == self.spec_socket()
                && transmit.addr == *addr,
            result matches Ok(transmit) ==> spec_new_packet(
                self.spec_local_addr(),
                *addr,
                payload@,
            ) matches Ok(packet) && transmit.data@ == spec_encode_packet(packet),
            result matches Err(error) ==> error == UDPError::EncodeFailed,
    {
        match UDPPacket::new(&self.addr, addr, payload) {
            Ok(packet) => self.send_packet(&packet, addr),
            Err(_) => Err(UDPError::EncodeFailed),
        }
    }

    /// Says what a write returned: the number of bytes sent, or
    /// `TransmitFailed` with the operating system's error code where `ret`
    /// is negative.
    pub fn sent(&self, ret: isize, os_error: i32) -> (result: Result<usize, UDPError>)
        ensures
            result == if ret < 0 {
                Err::<usize, UDPError>(UDPError::TransmitFailed(os_error))
            } else {
                Ok::<usize, UDPError>(ret as usize)
            },
            result matches Ok(count) ==> count == ret,
    {
        if ret < 0 {
            Err(UDPError::TransmitFailed(os_error))
        } else {
            Ok(ret as usize)
        }
    }

    /// Says what a read delivered: the bytes of the datagram, without the
    /// IP header that the kernel puts in front of them.
    ///
    /// `buffer` is what was offered to the read, `ret` what the call
    /// returned and `os_error` the error code left behind. A negative `ret`
    /// gives `ReceiveFailed`. Otherwise the first `ret` bytes of the buffer
    /// are the datagram as delivered, and what follows its first 20 bytes
    /// is given; a datagram of fewer bytes leaves nothing.
    pub fn received<'a>(&self, buffer: &'a [u8], ret: isize, os_error: i32) -> (result: Result<
        &'a [u8],
        UDPError,
    >)
        ensures
            match result {
                Ok(datagram) => ret >= 0 && datagram@ == spec_strip_ip_header(
                    spec_received(buffer@, ret as int),
                ),
                Err(error) => ret < 0 && error == UDPError::ReceiveFailed(os_error),
            },
    {
        if ret < 0 {
            return Err(UDPError::ReceiveFailed(os_error));
        }
        let count: usize = if ret as usize >= buffer.len() {
            buffer.len()
        } else {
            ret as usize
        };
        let start: usize = if count >= IP_HEADER_LEN {
            IP_HEADER_LEN
        } else {
            count
        };
        let datagram = slice_subrange(buffer, start, count);
        assert(datagram@ =~= spec_strip_ip_header(spec_received(buffer@, ret as int)));
        Ok(datagram)
    }

    /// Says what a read returned: the packet and the address it came from.
    ///
    /// `buffer`, `ret` and `os_error` are read as `received` reads them;
    /// `sender` is the address that the operating system reported. What is
    /// left behind the IP header is decoded as a packet, whose errors are
    /// passed on.
    ///
    /// A raw socket is not bound to a port by the kernel, and the address it
    /// reports carries no UDP port: the port of `sender` is whatever the
    /// operating system wrote there. The sender's UDP port is the source port
    /// in the packet's header.
    pub fn receive_packet(
        &self,
        buffer: &[u8],
        ret: isize,
        os_error: i32,
        sender: SocketAddrV4,
    ) -> (result: Result<(UDPPacket, SocketAddrV4), UDPError>)
        ensures
            match result {
                Ok((packet, from)) => spec_receive_packet(buffer@, ret as int, os_error, sender)
                    == Ok::<(UDPPacketView, SocketAddrV4), UDPError>((packet@, from)),
                Err(error) => spec_receive_packet(buffer@, ret as int, os_error, sender) == Err::<
                    (UDPPacketView, SocketAddrV4),
                    UDPError,
                >(error),
            },
    {
        let datagram = match self.received(buffer, ret, os_error) {
            Ok(datagram) => datagram,
            Err(error) => {
                return Err(error);
            },
        };
        match UDPPacket::from_bytes(datagram) {
            Ok(packet) => Ok((packet, sender)),
            Err(error) => Err(error),
        }
    }

    /// Ends the transport and gives back the handle, which the caller is to
    /// release.
    pub fn close(self) -> (socket: i32)
        ensures
            socket == self.spec_socket(),
    {
        self.socket
    }
}

/// What a transport sends is what another receives: the datagram that
/// carries `payload`, delivered behind any IP header of 20 bytes, is read as
/// the very packet that was built, from the sender that was reported.
pub proof fn lemma_send_receive(
    local: SocketAddrV4,
    destination: SocketAddrV4,
    payload: Seq<u8>,
    ip_header: Seq<u8>,
    os_error: i32,
    sender: SocketAddrV4,
)
    requires
        payload.len() <= MAX_PAYLOAD_LEN,
        ip_header.len() == IP_HEADER_LEN,
    ensures
        spec_new_packet(local, destination, payload) is Ok,
        spec_receive_packet(
            ip_header + spec_encode_packet(spec_new_packet(local, destination, payload)->Ok_0),
            IP_HEADER_LEN + UDP_HEADER_LEN + payload.len(),
            os_error,
            sender,
        ) == Ok::<(UDPPacketView, SocketAddrV4), UDPError>(
            (spec_new_packet(local, destination, payload)->Ok_0, sender),
        ),
{
    lemma_new_packet_roundtrip(local, destination, payload);
    let packet = spec_new_packet(local, destination, payload)->Ok_0;
    let buffer = ip_header + spec_encode_packet(packet);
    assert(spec_strip_ip_header(spec_received(buffer, buffer.len() as int))
        =~= spec_encode_packet(packet));
}

} // verus!
