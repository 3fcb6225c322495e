//! Typed surface of the vendor HMD boundary. Every vendor call reports an
//! optional error message; a missing message signals success. The device
//! layer reads the raw message off the foreign call and hands it here as a
//! plain `Option<String>`, so that a present message always becomes a typed
//! failure and is never silently ignored.

use vstd::prelude::*;

verus! {

/// A failure reported by the vendor HMD runtime, carrying its message.
#[derive(Debug)]
pub struct VarjoErr(pub String);

/// Converts the optional error message of a vendor call into a typed
/// result: no message means success, a message becomes a `VarjoErr`.
pub fn try_fail(error: Option<String>) -> (r: Result<(), VarjoErr>)
    ensures
        error is None <==> r is Ok,
        error matches Some(m) ==> r matches Err(e) && e.0 == m,
{
    match error {
        None => Ok(()),
        Some(message) => Err(VarjoErr(message)),
    }
}

} // verus!
