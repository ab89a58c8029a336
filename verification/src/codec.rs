//! Decoding guest bytes into fixed-size typed values.
//!
//! A handler that asked for a buffer input may interpret the declared input
//! bytes as a typed value instead of raw bytes. Only types whose encoded size
//! is bounded and known belong here, since the cost of reading them is assumed
//! to be folded into a charge sized for the type. Integers are encoded as
//! little-endian bytes; a decode consumes a fixed prefix of the input and
//! ignores what follows it.

use vstd::prelude::*;

use crate::error::DispatchError;

verus! {

/// A type a guest buffer can be decoded into, with the decodable byte
/// sequences and their meaning pinned down by `spec_decode`.
pub trait FixedDecode: Sized {
    /// The value encoded by `bytes`, or `None` where `bytes` is not a valid
    /// encoding of this type.
    spec fn spec_decode(bytes: Seq<u8>) -> Option<Self>;

    /// Decode a value from `bytes`, failing exactly on the byte sequences
    /// that encode nothing.
    fn decode(bytes: &[u8]) -> (r: Result<Self, DispatchError>)
        ensures
            r is Ok <==> Self::spec_decode(bytes@) is Some,
            r matches Ok(v) ==> Self::spec_decode(bytes@) == Some(v),
            r matches Err(e) ==> e == DispatchError::DecodeFailure,
    ;
}

impl FixedDecode for u32 {
    open spec fn spec_decode(bytes: Seq<u8>) -> Option<u32> {
        if bytes.len() >= 4 {
            Some(vstd::bytes::spec_u32_from_le_bytes(bytes.subrange(0, 4)))
        } else {
            None
        }
    }

    fn decode(bytes: &[u8]) -> (r: Result<u32, DispatchError>) {
        if bytes.len() >= 4 {
            let head: &[u8] = vstd::slice::slice_subrange(bytes, 0, 4);
            Ok(vstd::bytes::u32_from_le_bytes(head))
        } else {
            Err(DispatchError::DecodeFailure)
        }
    }
}

impl FixedDecode for u64 {
    open spec fn spec_decode(bytes: Seq<u8>) -> Option<u64> {
        if bytes.len() >= 8 {
            Some(vstd::bytes::spec_u64_from_le_bytes(bytes.subrange(0, 8)))
        } else {
            None
        }
    }

    fn decode(bytes: &[u8]) -> (r: Result<u64, DispatchError>) {
        if bytes.len() >= 8 {
            let head: &[u8] = vstd::slice::slice_subrange(bytes, 0, 8);
            Ok(vstd::bytes::u64_from_le_bytes(head))
        } else {
            Err(DispatchError::DecodeFailure)
        }
    }
}

impl FixedDecode for bool {
    open spec fn spec_decode(bytes: Seq<u8>) -> Option<bool> {
        if bytes.len() >= 1 && (bytes[0] == 0 || bytes[0] == 1) {
            Some(bytes[0] == 1)
        } else {
            None
        }
    }

    fn decode(bytes: &[u8]) -> (r: Result<bool, DispatchError>) {
        if bytes.len() >= 1 {
            let b: u8 = *vstd::slice::slice_index_get(bytes, 0);
            if b == 0 {
                Ok(false)
            } else if b == 1 {
                Ok(true)
            } else {
                Err(DispatchError::DecodeFailure)
            }
        } else {
            Err(DispatchError::DecodeFailure)
        }
    }
}

} // verus!
