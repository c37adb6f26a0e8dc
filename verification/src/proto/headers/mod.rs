//! The UDP header and the pseudo-header that the checksum covers.

pub mod pseudo;
pub mod udp;
