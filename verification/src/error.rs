//! The errors that the library reports.

use vstd::prelude::*;

verus! {

/// Why an operation was refused.
#[derive(Debug, Clone, Copy, PartialEq, Eq, Structural)]
pub enum SenseHatError {
    /// A sensor has no fresh sample yet.
    NotReady,
    /// A failure with no more specific cause.
    GenericError,
    /// A coordinate lies outside the 8x8 matrix.
    OutOfBounds,
    /// A gamma table holds an entry above 31.
    InvalidGamma,
    /// No frame buffer identifies itself as the LED matrix.
    MissingFramebuffer,
}

/// The result of an operation that can be refused.
pub type SenseHatResult<T> = Result<T, SenseHatError>;

} // verus!
