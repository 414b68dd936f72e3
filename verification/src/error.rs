use vstd::prelude::*;
use crate::rewind_curve_type::RewindCurveType;

verus! {

/// Every way a replay decode can fail.
///
/// No step recovers locally: each failure propagates unchanged to the
/// top-level decode call, which returns no partial result.
#[derive(Debug, Clone, PartialEq)]
pub enum ReplayError {
    /// The cursor ran out of bytes; carries the offset at which the
    /// failing read began.
    UnexpectedEof(usize),
    /// A raw tag value names no member of the closed curve-type set.
    UnknownCurveType,
    /// The tag read from the stream disagrees with the tag the caller expected.
    MismatchedCurveTypes { expected: RewindCurveType, found: RewindCurveType },
    /// A boolean byte was neither 0 nor 1.
    InvalidBoolEncoding,
    /// A declared sample, element, field or rewindable count is negative.
    MalformedCount,
    /// The compressed payload is not a well-formed raw-deflate stream.
    DecompressionError,
    /// A string's bytes are not valid UTF-8.
    InvalidStringEncoding,
    /// An element tag was asked of a tag that is not an array tag.
    NotAnArrayType,
    /// No rewindable in the buffer carries the marble controller type name.
    NoMarbleController,
    /// A named field is absent from a rewindable.
    MissingField(String),
}

} // verus!
