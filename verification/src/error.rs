//! The error type shared by every part of the library.

use vstd::prelude::*;

use crate::format::PixelFormat;

verus! {

/// Result alias used across the library.
pub type Result<T> = core::result::Result<T, Error>;

/// Error type shared by every backend.
#[derive(Debug)]
#[non_exhaustive]
pub enum Error {
    /// The requested operation is not available on the current platform or
    /// graphics backend.
    Unsupported(&'static str),
    /// No sender / server matched the request.
    NotFound(String),
    /// The receiver is not connected to a sender.
    NotConnected,
    /// The caller passed an invalid argument.
    InvalidArgument(String),
    /// The pixel format is not supported by the backend.
    InvalidFormat(PixelFormat),
    /// The provided buffer does not match the expected size.
    SizeMismatch {
        /// Number of bytes the backend expected.
        expected: usize,
        /// Number of bytes actually provided.
        actual: usize,
    },
    /// A lock or wait timed out (for example the Spout texture access mutex).
    Timeout,
    /// An operating system or graphics API call failed.
    Os {
        /// Native error code (`HRESULT`, `GetLastError`, `kern_return_t`, ...).
        code: i64,
        /// Human readable description.
        message: String,
    },
    /// Backend specific failure that does not map to the variants above.
    Backend(String),
}

impl Error {
    /// Convenience constructor for [`Error::Os`].
    pub fn os(code: i64, message: &str) -> (r: Self)
        ensures
            r matches Error::Os { code: c, message: m } && c == code && m@ == message@,
    {
        Error::Os { code, message: message.to_owned() }
    }

    /// Convenience constructor for [`Error::Backend`].
    pub fn backend(message: &str) -> (r: Self)
        ensures
            r matches Error::Backend(m) && m@ == message@,
    {
        Error::Backend(message.to_owned())
    }
}

} // verus!
