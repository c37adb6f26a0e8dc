//! UDP datagrams over raw IPv4: the header and pseudo-header models, the
//! Internet checksum, the packet codec and the decisions of a raw transport.
//!
//! Everything here is pure: system calls are made by the caller, who hands
//! their results to the functions of [`proto::socket`].

pub mod cli;
pub mod common;
pub mod proto;
