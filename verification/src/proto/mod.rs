//! The protocol itself: headers, checksum, packets and the transport.

pub mod checksum;
pub mod headers;
pub mod packet;
pub mod socket;
