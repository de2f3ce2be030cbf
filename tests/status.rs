use libsane::error::{STATUS_ACCESS_DENIED, STATUS_GOOD};
use libsane::{is_known_status, SaneError};

#[test]
fn good_status_is_success() {
    assert_eq!(SaneError::from_retcode(STATUS_GOOD), Ok(()));
}

#[test]
fn each_documented_status_maps_to_its_error() {
    let expected = [
        SaneError::Unsupported,
        SaneError::Cancelled,
        SaneError::DeviceBusy,
        SaneError::Invalid,
        SaneError::EOF,
        SaneError::Jammed,
        SaneError::NoDocs,
        SaneError::CoverOpen,
        SaneError::Io,
        SaneError::Memory,
        SaneError::AccessDenied,
    ];
    for (i, e) in expected.iter().enumerate() {
        assert_eq!(SaneError::from_retcode(i as u32 + 1), Err(*e));
    }
}

#[test]
fn unknown_status_is_not_known() {
    assert!(is_known_status(STATUS_GOOD));
    assert!(is_known_status(STATUS_ACCESS_DENIED));
    assert!(!is_known_status(12));
    assert!(!is_known_status(u32::MAX));
}

#[test]
fn error_messages() {
    assert_eq!(SaneError::DeviceBusy.message(), "Device is busy, retry later.");
    assert_eq!(SaneError::CoverOpen.message(), "Scanner cover is open.");
    assert_eq!(SaneError::EOF.message(), "No more data available (end-of-file).");
}
