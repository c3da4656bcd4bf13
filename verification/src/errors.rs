//! Error taxonomy: decode failures raised by this library, and the
//! classification of numeric error codes reported by the external
//! acquisition layer.

use vstd::prelude::*;

verus! {

/// An error raised while decoding a snapshot buffer.
#[derive(Debug, Clone, Copy, PartialEq, Eq, Structural)]
pub enum DecodeError {
    /// The buffer has the wrong size, or its declared active-entry count
    /// exceeds the buffer's capacity.
    MalformedBuffer,
    /// A roster entry carries a hardware type code outside the known table;
    /// the offending code is carried along.
    UnknownDeviceType(u8),
}

/// An error reported by the external acquisition layer.
#[derive(Debug, Clone, Copy, PartialEq, Eq, Structural)]
pub enum MMError {
    /// Communication error
    CommunicationError,
    /// Error opening serial port
    SerialPortError,
    /// License is required
    LicenseError,
    /// Unknown error type
    UnknownError,
}

/// The classification an external numeric error code maps to: codes 1, 2 and 3
/// are the documented failures; everything else — including a failed retrieval
/// of the code itself — is unknown.
pub open spec fn spec_classify_error(raw_code: u32, retrieval_succeeded: bool) -> MMError {
    if !retrieval_succeeded {
        MMError::UnknownError
    } else if raw_code == 1 {
        MMError::CommunicationError
    } else if raw_code == 2 {
        MMError::SerialPortError
    } else if raw_code == 3 {
        MMError::LicenseError
    } else {
        MMError::UnknownError
    }
}

/// Maps the numeric error code fetched from the external layer to the closed
/// error taxonomy. `retrieval_succeeded` reports whether fetching the code
/// itself succeeded; when it did not, the error is unknown.
pub fn classify_error(raw_code: u32, retrieval_succeeded: bool) -> (r: MMError)
    ensures
        r == spec_classify_error(raw_code, retrieval_succeeded),
{
    if !retrieval_succeeded {
        MMError::UnknownError
    } else if raw_code == 1 {
        MMError::CommunicationError
    } else if raw_code == 2 {
        MMError::SerialPortError
    } else if raw_code == 3 {
        MMError::LicenseError
    } else {
        MMError::UnknownError
    }
}

impl MMError {
    /// A human-readable description of the error.
    pub fn message(&self) -> (r: &'static str)
        ensures
            self is CommunicationError ==> r@ == "communication error"@,
            self is SerialPortError ==> r@ == "error opening serial port"@,
            self is LicenseError ==> r@ == "license is required"@,
            self is UnknownError ==> r@ == "unknown error"@,
    {
        match self {
            MMError::CommunicationError => "communication error",
            MMError::SerialPortError => "error opening serial port",
            MMError::LicenseError => "license is required",
            MMError::UnknownError => "unknown error",
        }
    }
}

} // verus!
