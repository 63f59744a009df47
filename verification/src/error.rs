//! The portable error taxonomy and the classification of Win32 error
//! codes under it.

use vstd::prelude::*;

verus! {

/// The system cannot find the file specified.
pub const ERROR_FILE_NOT_FOUND: u32 = 2;

/// The system cannot find the path specified.
pub const ERROR_PATH_NOT_FOUND: u32 = 3;

/// Access is denied: for a serial device, another process holds it.
pub const ERROR_ACCESS_DENIED: u32 = 5;

/// The parameter is incorrect: a configuration value the driver refuses.
pub const ERROR_INVALID_PARAMETER: u32 = 87;

/// The semaphore timeout period has expired.
pub const ERROR_SEM_TIMEOUT: u32 = 121;

/// The filename, directory name, or volume label syntax is incorrect.
pub const ERROR_INVALID_NAME: u32 = 123;

/// Overlapped I/O operation is in progress.
pub const ERROR_IO_PENDING: u32 = 997;

/// What went wrong, independent of the platform.
#[derive(Clone, Copy, Debug, PartialEq, Eq, Structural)]
pub enum ErrorKind {
    /// The device is missing, or another process holds it exclusively.
    NoDevice,
    /// The device path is malformed, or the system rejected a configuration
    /// value as out of range.
    InvalidInput,
    /// The native configuration holds a value that has no portable
    /// counterpart.
    Unknown,
    /// A transfer ran into the configured timeout.
    TimedOut,
    /// Any other failure reported by the operating system.
    Io,
}

/// An error of the serial port, with the system's code where it has one.
#[derive(Clone, Copy, Debug, PartialEq, Eq, Structural)]
pub struct Error {
    pub kind: ErrorKind,
    /// The Win32 error code behind the error; 0 where the error did not
    /// come from a failed system call.
    pub code: u32,
}

/// The kind under which a Win32 error code is reported.
pub open spec fn kind_of_code(code: u32) -> ErrorKind {
    if code == ERROR_FILE_NOT_FOUND || code == ERROR_PATH_NOT_FOUND || code == ERROR_ACCESS_DENIED {
        ErrorKind::NoDevice
    } else if code == ERROR_INVALID_NAME || code == ERROR_INVALID_PARAMETER {
        ErrorKind::InvalidInput
    } else {
        ErrorKind::Io
    }
}

impl Error {
    /// The error of a failed system call, classified by its code.
    pub open spec fn of_os(code: u32) -> Error {
        Error { kind: kind_of_code(code), code }
    }

    /// The error of a failed transfer call: always `Io`, whatever the code.
    pub open spec fn of_io(code: u32) -> Error {
        Error { kind: ErrorKind::Io, code }
    }

    /// An error raised by the library itself.
    pub open spec fn of_kind(kind: ErrorKind) -> Error {
        Error { kind, code: 0 }
    }

    /// An error of the given kind that no system call stands behind.
    pub fn new(kind: ErrorKind) -> (e: Error)
        ensures
            e == Error::of_kind(kind),
    {
        Error { kind, code: 0 }
    }

    /// Classifies the code of a failed system call.
    ///
    /// A missing file, a missing path and a denied access all mean that the
    /// device cannot be had; a bad name and a bad parameter mean that the
    /// caller's input was refused; everything else is a plain I/O error.
    pub fn from_os_code(code: u32) -> (e: Error)
        ensures
            e == Error::of_os(code),
    {
        let kind = if code == ERROR_FILE_NOT_FOUND || code == ERROR_PATH_NOT_FOUND || code
            == ERROR_ACCESS_DENIED {
            ErrorKind::NoDevice
        } else if code == ERROR_INVALID_NAME || code == ERROR_INVALID_PARAMETER {
            ErrorKind::InvalidInput
        } else {
            ErrorKind::Io
        };
        Error { kind, code }
    }

    /// The error of a failed read, write or flush, which keeps the code and
    /// is not classified further.
    pub fn from_io_code(code: u32) -> (e: Error)
        ensures
            e == Error::of_io(code),
    {
        Error { kind: ErrorKind::Io, code }
    }
}

/// A classified system error is never `Unknown` or `TimedOut`, and it keeps
/// the code it was made from.
pub proof fn lemma_os_error_kinds(code: u32)
    ensures
        Error::of_os(code).code == code,
        Error::of_os(code).kind != ErrorKind::Unknown,
        Error::of_os(code).kind != ErrorKind::TimedOut,
{
}

} // verus!
