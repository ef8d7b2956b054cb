use vstd::prelude::*;

verus! {

/// The conditions under which an encoding, decoding or crossover request is
/// rejected. All of them are detectable before any work is done, and every
/// public operation reports them as a result instead of panicking.
#[derive(Clone, Copy, Debug, PartialEq, Eq, Structural)]
pub enum GeneticError {
    /// A symbol sequence's length is not a multiple of four when packing it
    /// into bytes.
    MalformedLength,
    /// A sequence's length does not match what the operation requires: a
    /// decoded sequence is not the type's fixed symbol length, or the two
    /// crossover operands differ in encoded length.
    LengthMismatch,
    /// The crossover segment bounds are unusable: the minimum is zero, the
    /// maximum exceeds the sequence length, or the minimum is not below the
    /// maximum.
    InvalidSegmentBounds,
    /// Decoded bytes are not valid UTF-8 when reconstructing a text value.
    InvalidEncoding,
}

} // verus!
