use vstd::prelude::*;

verus! {

/// Status code: the operation completed successfully.
pub const STATUS_GOOD: u32 = 0;

/// Status code: the operation is not supported.
pub const STATUS_UNSUPPORTED: u32 = 1;

/// Status code: the operation was cancelled.
pub const STATUS_CANCELLED: u32 = 2;

/// Status code: the device is busy.
pub const STATUS_DEVICE_BUSY: u32 = 3;

/// Status code: data or argument is invalid.
pub const STATUS_INVAL: u32 = 4;

/// Status code: no more data is available.
pub const STATUS_EOF: u32 = 5;

/// Status code: the document feeder is jammed.
pub const STATUS_JAMMED: u32 = 6;

/// Status code: the document feeder is out of documents.
pub const STATUS_NO_DOCS: u32 = 7;

/// Status code: the scanner cover is open.
pub const STATUS_COVER_OPEN: u32 = 8;

/// Status code: error during device I/O.
pub const STATUS_IO_ERROR: u32 = 9;

/// Status code: out of memory.
pub const STATUS_NO_MEM: u32 = 10;

/// Status code: access to the resource has been denied.
pub const STATUS_ACCESS_DENIED: u32 = 11;

/// The recoverable errors that a protocol call can report.
#[non_exhaustive]
#[derive(Debug, Copy, Clone, PartialEq, Eq, Structural)]
pub enum SaneError {
    Unsupported,
    Cancelled,
    DeviceBusy,
    Invalid,
    EOF,
    Jammed,
    NoDocs,
    CoverOpen,
    Io,
    Memory,
    AccessDenied,
}

/// Whether `code` is one of the status codes that the protocol documents.
pub open spec fn is_status_code(code: u32) -> bool {
    code <= STATUS_ACCESS_DENIED
}

/// The meaning of a documented status code: success, or one error kind.
pub open spec fn status_result(code: u32) -> Result<(), SaneError> {
    if code == STATUS_GOOD {
        Ok(())
    } else if code == STATUS_UNSUPPORTED {
        Err(SaneError::Unsupported)
    } else if code == STATUS_CANCELLED {
        Err(SaneError::Cancelled)
    } else if code == STATUS_DEVICE_BUSY {
        Err(SaneError::DeviceBusy)
    } else if code == STATUS_INVAL {
        Err(SaneError::Invalid)
    } else if code == STATUS_EOF {
        Err(SaneError::EOF)
    } else if code == STATUS_JAMMED {
        Err(SaneError::Jammed)
    } else if code == STATUS_NO_DOCS {
        Err(SaneError::NoDocs)
    } else if code == STATUS_COVER_OPEN {
        Err(SaneError::CoverOpen)
    } else if code == STATUS_IO_ERROR {
        Err(SaneError::Io)
    } else if code == STATUS_NO_MEM {
        Err(SaneError::Memory)
    } else {
        Err(SaneError::AccessDenied)
    }
}

/// The human-readable description of each error kind.
pub open spec fn error_message(e: SaneError) -> &'static str {
    match e {
        SaneError::Unsupported => "Operation is not supported.",
        SaneError::Cancelled => "Operation was cancelled.",
        SaneError::DeviceBusy => "Device is busy, retry later.",
        SaneError::Invalid => "Data or argument is invalid.",
        SaneError::EOF => "No more data available (end-of-file).",
        SaneError::Jammed => "Document feeder jammed.",
        SaneError::NoDocs => "Document feeder out of documents.",
        SaneError::CoverOpen => "Scanner cover is open.",
        SaneError::Io => "Error during device I/O.",
        SaneError::Memory => "Out of memory.",
        SaneError::AccessDenied => "Access to resource has been denied.",
    }
}

/// Tells a documented status code from one outside the protocol's domain.
/// A code for which this returns `false` is a broken promise of the native
/// library, not an error that a caller can recover from.
pub fn is_known_status(code: u32) -> (r: bool)
    ensures
        r == is_status_code(code),
{
    code <= STATUS_ACCESS_DENIED
}

impl SaneError {
    /// Maps a documented status code to success or to its error kind.
    pub fn from_retcode(code: u32) -> (r: Result<(), SaneError>)
        requires
            is_status_code(code),
        ensures
            r == status_result(code),
            r is Ok <==> code == STATUS_GOOD,
    {
        match code {
            STATUS_GOOD => Ok(()),
            STATUS_UNSUPPORTED => Err(SaneError::Unsupported),
            STATUS_CANCELLED => Err(SaneError::Cancelled),
            STATUS_DEVICE_BUSY => Err(SaneError::DeviceBusy),
            STATUS_INVAL => Err(SaneError::Invalid),
            STATUS_EOF => Err(SaneError::EOF),
            STATUS_JAMMED => Err(SaneError::Jammed),
            STATUS_NO_DOCS => Err(SaneError::NoDocs),
            STATUS_COVER_OPEN => Err(SaneError::CoverOpen),
            STATUS_IO_ERROR => Err(SaneError::Io),
            STATUS_NO_MEM => Err(SaneError::Memory),
            _ => Err(SaneError::AccessDenied),
        }
    }

    /// A sentence that describes the error to a person.
    pub fn message(&self) -> (r: &'static str)
        ensures
            r == error_message(*self),
    {
        match self {
            SaneError::Unsupported => "Operation is not supported.",
            SaneError::Cancelled => "Operation was cancelled.",
            SaneError::DeviceBusy => "Device is busy, retry later.",
            SaneError::Invalid => "Data or argument is invalid.",
            SaneError::EOF => "No more data available (end-of-file).",
            SaneError::Jammed => "Document feeder jammed.",
            SaneError::NoDocs => "Document feeder out of documents.",
            SaneError::CoverOpen => "Scanner cover is open.",
            SaneError::Io => "Error during device I/O.",
            SaneError::Memory => "Out of memory.",
            SaneError::AccessDenied => "Access to resource has been denied.",
        }
    }
}

} // verus!
