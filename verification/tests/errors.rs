//! Tests for external error classification.

use marvelmind::errors::{classify_error, MMError};

#[test]
fn classify_error_maps_documented_codes() {
    assert_eq!(classify_error(1, true), MMError::CommunicationError);
    assert_eq!(classify_error(2, true), MMError::SerialPortError);
    assert_eq!(classify_error(3, true), MMError::LicenseError);
}

#[test]
fn classify_error_unknown_codes() {
    assert_eq!(classify_error(0, true), MMError::UnknownError);
    assert_eq!(classify_error(4, true), MMError::UnknownError);
    assert_eq!(classify_error(u32::MAX, true), MMError::UnknownError);
}

#[test]
fn classify_error_failed_retrieval_is_unknown() {
    // Even a documented code is unknown when fetching it already failed.
    assert_eq!(classify_error(1, false), MMError::UnknownError);
    assert_eq!(classify_error(7, false), MMError::UnknownError);
}

#[test]
fn error_messages() {
    assert_eq!(MMError::CommunicationError.message(), "communication error");
    assert_eq!(MMError::SerialPortError.message(), "error opening serial port");
    assert_eq!(MMError::LicenseError.message(), "license is required");
    assert_eq!(MMError::UnknownError.message(), "unknown error");
}
