//! Failures of the simple tabular readers: a system file whose contents do
//! not parse, or whose expected key is absent.

use vstd::prelude::*;

verus! {

/// Failure of a reader that parses a system file's contents.
#[derive(Clone, Copy, Debug, PartialEq, Eq, Structural)]
pub enum Error {
    /// The contents do not have the expected shape (a malformed number,
    /// a missing field, an out-of-range value).
    InvalidData,
    /// A whole key or line that the reader looked for is absent.
    MissingKey,
}

} // verus!
