//! Safe, typed handles over a native post-quantum cryptography registry.
//!
//! The native library owns the algorithms; this crate owns the discipline
//! around them: which byte buffers may reach a native call, how large the
//! output storage handed to it is, and how the native status code becomes a
//! [`Result`].
use vstd::prelude::*;

mod buffer;
pub mod kem;
pub mod sig;

pub use buffer::bytes_equal;

verus! {

/// Possible errors.
#[derive(Debug, Clone, Copy, PartialEq, Eq, Structural)]
#[non_exhaustive]
pub enum Error {
    /// The requested algorithm is not available in the linked native library.
    AlgorithmDisabled,
    /// A buffer does not have the length that the handle declares for its role.
    InvalidLength,
    /// Generic native error.
    Error,
    /// Error inside the external crypto backend that the native library uses.
    ErrorExternalOpenSSL,
}

impl Error {
    /// The message that describes this error.
    pub open spec fn message(self) -> Seq<char> {
        match self {
            Error::AlgorithmDisabled => "Algorithm has been disabled"@,
            _ => "OQS Error!"@,
        }
    }

    /// The message that describes this error, as an owned string.
    pub fn to_string(&self) -> (r: String)
        ensures
            r@ == self.message(),
    {
        match self {
            Error::AlgorithmDisabled => String::from_str("Algorithm has been disabled"),
            _ => String::from_str("OQS Error!"),
        }
    }
}

/// Result type for operations that may fail.
pub type Result<T> = core::result::Result<T, Error>;

/// The three-valued status that every native operation reports.
#[derive(Debug, Clone, Copy, PartialEq, Eq, Structural)]
pub enum Status {
    /// The operation succeeded.
    Success,
    /// Generic failure.
    Error,
    /// Failure inside the external crypto backend.
    ExternalLibErrorOpenssl,
}

/// What a native status means for the operation that reported it.
pub open spec fn status_result(status: Status) -> Result<()> {
    match status {
        Status::Success => Ok(()),
        Status::Error => Err(Error::Error),
        Status::ExternalLibErrorOpenssl => Err(Error::ErrorExternalOpenSSL),
    }
}

/// Convert a native status into the crate's result type.
pub fn status_to_result(status: Status) -> (r: Result<()>)
    ensures
        r == status_result(status),
{
    match status {
        Status::Success => Ok(()),
        Status::Error => Err(Error::Error),
        Status::ExternalLibErrorOpenssl => Err(Error::ErrorExternalOpenSSL),
    }
}

} // verus!
