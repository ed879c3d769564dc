use vstd::prelude::*;

verus! {

/// Errors reported by the library.
#[derive(Debug, Clone, PartialEq, Eq)]
pub enum Error {
    /// The cryptographic backend failed.
    CryptographicError(String),
}

} // verus!
