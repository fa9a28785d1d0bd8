//! The single error kind of the library.
//!
//! Every failure of a call across the JNI boundary — class lookup, method
//! resolution, method invocation or string conversion — is normalized into
//! [`Error::RuntimeCallFailed`], carrying the original JNI error as its cause.

use vstd::prelude::*;

verus! {

/// The one error kind of the library: a call across the runtime boundary
/// failed, for the wrapped JNI cause.
#[derive(Debug)]
pub enum Error {
    /// A JNI call failed; the original JNI error is kept for diagnostics.
    RuntimeCallFailed(jni::errors::Error),
}

impl Error {
    /// The fixed description of the one error kind, as a plain string; the
    /// wrapped cause carries the finer diagnostics.
    pub fn message(&self) -> (r: String)
        ensures
            r@ == "JNI call failed"@,
    {
        String::from_str("JNI call failed")
    }
}

/// Normalizes a boundary result: the success value passes through unchanged,
/// and any JNI error becomes [`Error::RuntimeCallFailed`] with that error as
/// its cause.
pub fn adapt<T>(r: Result<T, jni::errors::Error>) -> (out: Result<T, Error>)
    ensures
        out is Ok <==> r is Ok,
        r matches Ok(v) ==> out == Ok::<T, Error>(v),
        r matches Err(e) ==> out == Err::<T, Error>(Error::RuntimeCallFailed(e)),
{
    match r {
        Ok(v) => Ok(v),
        Err(e) => Err(Error::RuntimeCallFailed(e)),
    }
}

} // verus!
