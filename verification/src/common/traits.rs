//! Encoding to and decoding from bytes.

use vstd::prelude::*;
use crate::common::error::UDPError;

verus! {

/// Deserialization from bytes.
pub trait FromBytes: Sized + View {
    /// What `bytes` decode to: the view of the value, or the error.
    spec fn spec_from_bytes(bytes: Seq<u8>) -> Result<Self::V, UDPError>;

    /// Decodes a value from `bytes`.
    fn from_bytes(bytes: &[u8]) -> (result: Result<Self, UDPError>)
        ensures
            match result {
                Ok(value) => Self::spec_from_bytes(bytes@) == Ok::<Self::V, UDPError>(value@),
                Err(error) => Self::spec_from_bytes(bytes@) == Err::<Self::V, UDPError>(error),
            },
    ;
}

/// Serialization to bytes.
pub trait ToBytes {
    /// What `self` encodes to: the bytes, or the error.
    spec fn spec_to_bytes(&self) -> Result<Seq<u8>, UDPError>;

    /// Encodes `self`.
    fn to_bytes(&self) -> (result: Result<Vec<u8>, UDPError>)
        ensures
            match result {
                Ok(bytes) => self.spec_to_bytes() == Ok::<Seq<u8>, UDPError>(bytes@),
                Err(error) => self.spec_to_bytes() == Err::<Seq<u8>, UDPError>(error),
            },
    ;
}

} // verus!
