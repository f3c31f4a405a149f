//! What can go wrong while decoding.

use crate::riff::Chunk;
use vstd::prelude::*;

verus! {

/// Why a decoder gave up. None of these is worth a second attempt: the input
/// is malformed or cut short.
#[derive(Clone, Copy, Debug, PartialEq, Eq)]
pub enum Error {
    /// Fewer bytes were left in the buffer than the value or record needs.
    TruncatedRecord,
    /// A generator list whose declared length is zero or no multiple of
    /// four; the length is carried along.
    InvalidGeneratorChunkSize(u32),
    /// A generator kind outside the known codes was asked for as a known
    /// kind; the code is carried along.
    UnknownGeneratorType(u16),
    /// A chunk under the sample-data section that is neither the sample pool
    /// nor its low-order extension; the chunk is carried along.
    UnexpectedMemberOfSampleData(Chunk),
    /// The chunk handed to a decoder does not have the tag or the type that
    /// the decoder is for; the chunk is carried along.
    StructuralMismatch(Chunk),
}

} // verus!
