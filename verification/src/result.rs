//! Result and error types for the library.

use vstd::prelude::*;

verus! {

/// Convenience alias for the library result type.
pub type Result<T> = core::result::Result<T, Error>;

/// Represents error conditions for the library.
///
/// `InvalidVariant` covers every string-decoding failure; `InvalidValue`
/// carries a numeric value that was supplied directly (not via string
/// parsing) and fell outside the valid range for its field.
#[derive(Clone, Copy, Debug, Eq, PartialEq)]
pub enum Error {
    InvalidVariant,
    InvalidValue(usize),
}

impl Error {
    /// Creates a new [Error].
    pub fn new() -> (r: Self)
        ensures
            r == Error::InvalidVariant,
    {
        Self::InvalidVariant
    }
}

impl Default for Error {
    fn default() -> (r: Self)
        ensures
            r == Error::InvalidVariant,
    {
        Self::new()
    }
}

} // verus!
