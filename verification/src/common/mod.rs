//! Types and helpers that every protocol module shares.

pub mod bytes;
pub mod error;
pub mod net;
pub mod traits;
