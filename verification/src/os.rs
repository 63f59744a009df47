//! The vocabulary between the library and whoever performs its system
//! calls: the calls it asks for, and what comes back from them.

use crate::dcb::Dcb;
use crate::error::Error;
use crate::timeouts::CommTimeouts;
use vstd::prelude::*;

verus! {

/// The handle value with which the system reports that no file handle
/// could be made: all bits set.
pub const INVALID_HANDLE_VALUE: usize = usize::MAX;

/// The handle value with which the system reports that no event could be
/// made.
pub const NULL_HANDLE: usize = 0;

/// The `BOOL` that stands for success.
pub const TRUE: usize = 1;

/// The `BOOL` that stands for failure.
pub const FALSE: usize = 0;

pub const GENERIC_READ: u32 = 0x8000_0000;

pub const GENERIC_WRITE: u32 = 0x4000_0000;

pub const OPEN_EXISTING: u32 = 3;

pub const FILE_ATTRIBUTE_NORMAL: u32 = 0x0000_0080;

pub const FILE_FLAG_OVERLAPPED: u32 = 0x4000_0000;

pub const DUPLICATE_SAME_ACCESS: u32 = 0x0000_0002;

pub const SETRTS: u32 = 3;

pub const CLRRTS: u32 = 4;

pub const SETDTR: u32 = 5;

pub const CLRDTR: u32 = 6;

pub const MS_CTS_ON: u32 = 0x0010;

pub const MS_DSR_ON: u32 = 0x0020;

pub const MS_RING_ON: u32 = 0x0040;

pub const MS_RLSD_ON: u32 = 0x0080;

pub const PURGE_TXABORT: u32 = 0x0001;

pub const PURGE_RXABORT: u32 = 0x0002;

pub const PURGE_TXCLEAR: u32 = 0x0004;

pub const PURGE_RXCLEAR: u32 = 0x0008;

/// A system call that the library wants made. Handles are carried as the
/// integers that they are to the system.
#[derive(Clone, Debug, PartialEq, Eq)]
pub enum Call {
    /// `CreateFileW` on `path`, with no security attributes and no template.
    CreateFile {
        path: Vec<u16>,
        desired_access: u32,
        share_mode: u32,
        creation_disposition: u32,
        flags_and_attributes: u32,
    },
    /// `CreateEventW` for an unnamed event with default security.
    CreateEvent { manual_reset: bool, initial_state: bool },
    /// `CloseHandle`.
    CloseHandle { handle: usize },
    /// `DuplicateHandle` of `source`, from and into the current process.
    /// The target handle is set to `INVALID_HANDLE_VALUE` before the call.
    DuplicateHandle { source: usize, desired_access: u32, inherit: bool, options: u32 },
    /// `GetCommState`.
    GetCommState { handle: usize },
    /// `SetCommState` with the complete record.
    SetCommState { handle: usize, dcb: Dcb },
    /// `SetCommTimeouts`.
    SetCommTimeouts { handle: usize, timeouts: CommTimeouts },
    /// `ReadFile` of up to `len` bytes, overlapped, signalling `event`.
    ReadFile { handle: usize, event: usize, len: u32 },
    /// `WriteFile` of `len` bytes, overlapped, signalling `event`.
    WriteFile { handle: usize, event: usize, len: u32 },
    /// `GetOverlappedResult` for the transfer submitted last, waiting
    /// until it has completed.
    GetOverlappedResult { handle: usize, wait: bool },
    /// `FlushFileBuffers`.
    FlushFileBuffers { handle: usize },
    /// `EscapeCommFunction`.
    EscapeCommFunction { handle: usize, function: u32 },
    /// `GetCommModemStatus`.
    GetCommModemStatus { handle: usize },
    /// `ClearCommError`.
    ClearCommError { handle: usize },
    /// `PurgeComm`.
    PurgeComm { handle: usize, flags: u32 },
    /// `SetCommBreak`.
    SetCommBreak { handle: usize },
    /// `ClearCommBreak`.
    ClearCommBreak { handle: usize },
}

/// What a system call gave back.
#[derive(Clone, Copy, Debug, PartialEq, Eq, Structural)]
pub struct Reply {
    /// The handle made, for `CreateFile`, `CreateEvent` and
    /// `DuplicateHandle` (there the target handle); for every other call
    /// its `BOOL`, zero for failure.
    pub value: usize,
    /// The calling thread's last-error code, read right after the call.
    pub last_error: u32,
}

/// The queue lengths that `ClearCommError` reports.
#[derive(Clone, Copy, Debug, PartialEq, Eq, Structural)]
pub struct ComStat {
    /// Bytes received and not yet read.
    pub in_queue: u32,
    /// Bytes written and not yet sent.
    pub out_queue: u32,
}

impl Reply {
    /// What the reply to a call that returns a `BOOL` means: success, or
    /// the failure that the last-error code stands for.
    pub open spec fn outcome(self) -> Result<(), Error> {
        if self.value == FALSE {
            Err(Error::of_os(self.last_error))
        } else {
            Ok(())
        }
    }

    /// Checks the reply to a call that returns a `BOOL` and has nothing
    /// else to say, such as `SetCommState`, `EscapeCommFunction`,
    /// `PurgeComm`, `SetCommBreak` and `ClearCommBreak`.
    pub fn status(&self) -> (result: Result<(), Error>)
        ensures
            result == self.outcome(),
    {
        if self.value == FALSE {
            Err(Error::from_os_code(self.last_error))
        } else {
            Ok(())
        }
    }
}

} // verus!
