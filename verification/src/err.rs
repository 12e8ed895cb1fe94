//! The error taxonomy of the codec.

use vstd::prelude::*;

verus! {

/// Why a byte sequence could not be decoded.
///
/// The last component of every variant names the kind of structure or
/// value that was being decoded.
#[derive(Debug, PartialEq, Eq, Clone)]
pub enum Error {
    /// A fixed-size structure was given a slice of another length:
    /// expected length, actual length, kind.
    InvalidSliceLength(usize, usize, &'static str),
    /// The length prefix at the given position could not be read, or what
    /// it announces does not fit the bytes at hand.
    CouldNotReadLength(usize, &'static str),
    /// A value that belongs to no variant of a closed enumeration.
    UnknownEnum(u64, &'static str),
    /// Bits set outside the defined mask of a flag set.
    UnknownBits(u64, &'static str),
    /// A value that is known but not allowed, such as port number 0.
    IllegalValue(u64, &'static str),
    /// A value that is known but that this codec does not decode.
    UnsupportedType(u64, &'static str),
}

} // verus!
