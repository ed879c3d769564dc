use crate::errors::Error;
use vstd::prelude::*;

verus! {

/// Calls `sodiumoxide::init`, which initialises libsodium and answers
/// `Ok(())` when that succeeded and `Err(())` when it failed. Nothing is
/// stated of which of the two comes back: that rests on the machine.
#[verifier::external_body]
fn sodium_init() -> (r: Result<(), ()>) {
    sodiumoxide::init()
}

/// The library's answer to the outcome of initialising libsodium: `Ok`
/// when it succeeded, and otherwise a cryptographic error that says so.
pub fn init_outcome(raw: Result<(), ()>) -> (r: Result<(), Error>)
    ensures
        r is Ok <==> raw is Ok,
        r matches Err(Error::CryptographicError(msg)) ==> msg@
            == "Failed to initialize sodiumoxide"@,
{
    match raw {
        Ok(()) => Ok(()),
        Err(()) => Err(Error::CryptographicError("Failed to initialize sodiumoxide".to_owned())),
    }
}

/// Initialize the KERI library.
pub fn init() -> (r: Result<(), Error>)
    ensures
        r matches Err(Error::CryptographicError(msg)) ==> msg@
            == "Failed to initialize sodiumoxide"@,
{
    init_outcome(sodium_init())
}

} // verus!
