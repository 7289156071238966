//! The error type and the length-checking helpers.

use vstd::prelude::*;

use crate::vector::Vector;

verus! {

/// The recoverable error kinds of this library.
///
/// Every fallible operation reports exactly which check failed, with the
/// offending lengths or index, so callers can produce their own diagnostic.
#[derive(Debug, Clone, Copy, PartialEq, Eq, Structural)]
pub enum VectorError {
    /// Two operand vectors were required to have the same length.
    LengthMismatch { left: usize, right: usize },
    /// An operand vector was required to have one specific length.
    InvalidDimension { expected: usize, actual: usize },
    /// An index was not below the vector's length.
    IndexOutOfRange { index: usize, len: usize },
}

/// Checks that the given vectors have the same length.
pub fn assert_lens<T>(left: &Vector<T>, right: &Vector<T>) -> (r: Result<(), VectorError>)
    ensures
        r is Ok <==> left@.len() == right@.len(),
        left@.len() != right@.len() ==> r == Err::<(), VectorError>(
            VectorError::LengthMismatch { left: left@.len() as usize, right: right@.len() as usize },
        ),
{
    if left.len() == right.len() {
        Ok(())
    } else {
        Err(VectorError::LengthMismatch { left: left.len(), right: right.len() })
    }
}

/// Checks that the given vector has the given length.
pub fn assert_len<T>(v: &Vector<T>, len: usize) -> (r: Result<(), VectorError>)
    ensures
        r is Ok <==> v@.len() == len,
        v@.len() != len ==> r == Err::<(), VectorError>(
            VectorError::InvalidDimension { expected: len, actual: v@.len() as usize },
        ),
{
    if v.len() == len {
        Ok(())
    } else {
        Err(VectorError::InvalidDimension { expected: len, actual: v.len() })
    }
}

} // verus!
