use vstd::prelude::*;

verus! {

/// Why a byte buffer could not be read as the format asks.
#[derive(Clone, Copy, Debug, PartialEq, Eq, Structural)]
pub enum ReadError {
    /// The input ends inside a header, a payload or an escaped literal.
    Truncated,
    /// A back-reference reaches before the first byte of the output.
    BadReference,
    /// A decoded buffer is too short for a field at its fixed offset.
    OutOfBounds,
}

} // verus!
