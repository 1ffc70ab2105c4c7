//! Errors reported for malformed input.
use vstd::prelude::*;

verus! {

/// The ways in which a buffer can fail to be a core dump.
#[derive(Debug, Copy, Clone, PartialEq, Eq, Structural)]
pub enum DecodeErrorKind {
    /// The buffer is shorter than the Mach-O header.
    TruncatedHeader,
    /// The magic number is none of the 64-bit Mach-O magics.
    UnsupportedMagic,
    /// A load command does not hold all the bytes its kind needs.
    TruncatedCommand,
    /// A load command declares a size below its own prefix or beyond the
    /// end of the buffer.
    InvalidCommandSize,
    /// A segment command refers to file contents outside the buffer.
    SegmentOutOfBounds,
}

/// A structural violation, with the byte offset of the item that violates.
///
/// For the two header errors the offset is 0. For the three command errors
/// it is the offset at which the offending load command starts.
#[derive(Debug, Copy, Clone, PartialEq, Eq, Structural)]
pub struct DecodeError {
    pub kind: DecodeErrorKind,
    pub offset: usize,
}

impl DecodeError {
    pub open spec fn at(kind: DecodeErrorKind, offset: int) -> DecodeError {
        DecodeError { kind, offset: offset as usize }
    }

    pub fn new(kind: DecodeErrorKind, offset: usize) -> (e: DecodeError)
        ensures
            e == DecodeError::at(kind, offset as int),
    {
        DecodeError { kind, offset }
    }
}

/// A field read asked for more bytes than the slice holds at that offset.
#[derive(Debug, Copy, Clone, PartialEq, Eq, Structural)]
pub struct TruncatedInput {
    /// Offset of the field's first byte.
    pub offset: usize,
    /// Number of bytes the field takes.
    pub width: usize,
}

} // verus!
