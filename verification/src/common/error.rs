//! The error kinds of the library.

use vstd::prelude::*;

verus! {

/// Everything that can go wrong while building, decoding or moving a datagram.
///
/// The four transport variants carry the operating system's error code as it
/// was reported, unchanged.
#[derive(Debug, Clone, Copy, PartialEq, Eq, Structural)]
pub enum UDPError {
    /// Header and payload together would be longer than 65535 bytes.
    PayloadTooLarge,
    /// Fewer than 8 bytes were offered where a header was expected.
    TruncatedHeader,
    /// Fewer than 8 bytes were offered where a packet was expected.
    TruncatedPacket,
    /// The header's length field disagrees with the number of bytes offered.
    LengthMismatch,
    /// The raw socket could not be created.
    SocketCreateFailed(i32),
    /// The raw socket could not be bound to the local address.
    BindFailed(i32),
    /// The datagram to send could not be encoded.
    EncodeFailed,
    /// The operating system refused to write the datagram.
    TransmitFailed(i32),
    /// The operating system failed to read a datagram.
    ReceiveFailed(i32),
}

impl UDPError {
    /// The operating system's error code, for the variants that carry one.
    pub open spec fn spec_os_error(self) -> Option<i32> {
        match self {
            UDPError::SocketCreateFailed(code) => Some(code),
            UDPError::BindFailed(code) => Some(code),
            UDPError::TransmitFailed(code) => Some(code),
            UDPError::ReceiveFailed(code) => Some(code),
            _ => None,
        }
    }

    /// The operating system's error code, for the variants that carry one.
    pub fn os_error(&self) -> (code: Option<i32>)
        ensures
            code == self.spec_os_error(),
    {
        match self {
            UDPError::SocketCreateFailed(code) => Some(*code),
            UDPError::BindFailed(code) => Some(*code),
            UDPError::TransmitFailed(code) => Some(*code),
            UDPError::ReceiveFailed(code) => Some(*code),
            _ => None,
        }
    }
}

} // verus!
