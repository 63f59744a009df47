//! Reading and writing: overlapped transfers that the caller sees as
//! blocking calls bounded by the port's timeout.
//!
//! A transfer is submitted and, where the system does not complete it at
//! once, awaited. The system enforces the timeout: a transfer that ran into
//! it completes with no bytes moved. No second timer is kept here.

use crate::com::COMPort;
use crate::error::{Error, ErrorKind, ERROR_IO_PENDING, ERROR_SEM_TIMEOUT};
use crate::os::{Call, Reply, FALSE, TRUE};
use vstd::prelude::*;

verus! {

/// Which way the bytes go.
#[derive(Clone, Copy, Debug, PartialEq, Eq, Structural)]
pub enum Direction {
    Read,
    Write,
}

/// Where a transfer stands.
#[derive(Clone, Copy, Debug, PartialEq, Eq)]
pub enum Transfer {
    /// The transfer was submitted; the reply to that call is awaited.
    Submitted { direction: Direction, handle: usize, requested: usize },
    /// The system took the transfer as pending; its completion is awaited.
    Waiting { direction: Direction, requested: usize },
    /// The transfer is over: so many bytes were moved, or it failed.
    Done(Result<usize, Error>),
}

/// The error of a wait that failed. A write that failed on the system's
/// semaphore timeout is reported as timed out, like a write that moved no
/// bytes; every other failure is an I/O error with the system's code.
pub open spec fn wait_error(direction: Direction, code: u32) -> Error {
    if direction == Direction::Write && code == ERROR_SEM_TIMEOUT {
        Error { kind: ErrorKind::TimedOut, code }
    } else {
        Error::of_io(code)
    }
}

/// The result of a transfer that completed with `transferred` bytes moved
/// out of `requested`. No bytes moved where some were asked for means that
/// the timeout struck.
pub open spec fn completion(requested: usize, transferred: u32) -> Result<usize, Error> {
    if transferred == 0 && requested != 0 {
        Err(Error::of_kind(ErrorKind::TimedOut))
    } else {
        Ok(transferred as usize)
    }
}

impl Transfer {
    /// The state after `reply`, and the call to make next, if any.
    /// `transferred` is the byte count that the call wrote.
    pub open spec fn next(self, reply: Reply, transferred: u32) -> (Transfer, Option<Call>) {
        match self {
            Transfer::Submitted { direction, handle, requested } => if reply.value == TRUE {
                (Transfer::Done(Ok(transferred as usize)), None)
            } else if reply.last_error != ERROR_IO_PENDING {
                (Transfer::Done(Err(Error::of_io(reply.last_error))), None)
            } else {
                (
                    Transfer::Waiting { direction, requested },
                    Some(Call::GetOverlappedResult { handle, wait: true }),
                )
            },
            Transfer::Waiting { direction, requested } => if reply.value == FALSE {
                (Transfer::Done(Err(wait_error(direction, reply.last_error))), None)
            } else {
                (Transfer::Done(completion(requested, transferred)), None)
            },
            Transfer::Done(result) => (Transfer::Done(result), None),
        }
    }

    /// Takes the reply to the call made last, with the byte count that the
    /// call wrote, and says what to do next: wait for the completion with
    /// the call returned, or, where none is returned, stop.
    pub fn step(self, reply: Reply, transferred: u32) -> (result: (Transfer, Option<Call>))
        ensures
            result == self.next(reply, transferred),
            result.1 is None <==> result.0 is Done,
    {
        match self {
            Transfer::Submitted { direction, handle, requested } => {
                if reply.value == TRUE {
                    (Transfer::Done(Ok(transferred as usize)), None)
                } else if reply.last_error != ERROR_IO_PENDING {
                    (Transfer::Done(Err(Error::from_io_code(reply.last_error))), None)
                } else {
                    (
                        Transfer::Waiting { direction, requested },
                        Some(Call::GetOverlappedResult { handle, wait: true }),
                    )
                }
            },
            Transfer::Waiting { direction, requested } => {
                if reply.value == FALSE {
                    let timed_out = match direction {
                        Direction::Write => reply.last_error == ERROR_SEM_TIMEOUT,
                        Direction::Read => false,
                    };
                    let error = if timed_out {
                        Error { kind: ErrorKind::TimedOut, code: reply.last_error }
                    } else {
                        Error::from_io_code(reply.last_error)
                    };
                    (Transfer::Done(Err(error)), None)
                } else if transferred == 0 && requested != 0 {
                    (Transfer::Done(Err(Error::new(ErrorKind::TimedOut))), None)
                } else {
                    (Transfer::Done(Ok(transferred as usize)), None)
                }
            },
            Transfer::Done(result) => (Transfer::Done(result), None),
        }
    }

    /// The result of the transfer, once it is over.
    pub fn finish(self) -> (result: Option<Result<usize, Error>>)
        ensures
            result == match self {
                Transfer::Done(r) => Some(r),
                _ => None::<Result<usize, Error>>,
            },
    {
        match self {
            Transfer::Done(r) => Some(r),
            _ => None,
        }
    }
}

impl COMPort {
    /// Starts a read into a buffer of `len` bytes. The call asks for the
    /// buffer's length as far as a `DWORD` holds it.
    pub fn read(&self, len: usize) -> (result: (Transfer, Call))
        ensures
            result.0 == (Transfer::Submitted {
                direction: Direction::Read,
                handle: self.handle,
                requested: len,
            }),
            result.1 == (Call::ReadFile {
                handle: self.handle,
                event: self.event,
                len: len as u32,
            }),
    {
        let request: u32 = #[verifier::truncate]
        (len as u32);
        (
            Transfer::Submitted { direction: Direction::Read, handle: self.handle, requested: len },
            Call::ReadFile { handle: self.handle, event: self.event, len: request },
        )
    }

    /// Starts a write from a buffer of `len` bytes.
    pub fn write(&self, len: usize) -> (result: (Transfer, Call))
        ensures
            result.0 == (Transfer::Submitted {
                direction: Direction::Write,
                handle: self.handle,
                requested: len,
            }),
            result.1 == (Call::WriteFile {
                handle: self.handle,
                event: self.event,
                len: len as u32,
            }),
    {
        let request: u32 = #[verifier::truncate]
        (len as u32);
        (
            Transfer::Submitted {
                direction: Direction::Write,
                handle: self.handle,
                requested: len,
            },
            Call::WriteFile { handle: self.handle, event: self.event, len: request },
        )
    }

    /// The call that makes the system hand its buffered output to the
    /// device. It does not wait for the far end to take the bytes.
    pub fn flush(&self) -> (call: Call)
        ensures
            call == (Call::FlushFileBuffers { handle: self.handle }),
    {
        Call::FlushFileBuffers { handle: self.handle }
    }

    /// What the reply to the flushing call means.
    pub fn flush_reply(&self, reply: Reply) -> (result: Result<(), Error>)
        ensures
            result == if reply.value == FALSE {
                Err::<(), Error>(Error::of_io(reply.last_error))
            } else {
                Ok::<(), Error>(())
            },
    {
        if reply.value == FALSE {
            Err(Error::from_io_code(reply.last_error))
        } else {
            Ok(())
        }
    }
}

/// A transfer for an empty buffer never reports a timeout of its own:
/// whenever the system completes it, at once or after a wait, with no bytes
/// moved, the result is a count of zero. A read for an empty buffer fails
/// only where a call failed, with that call's code as an I/O error, and so
/// never as timed out.
pub proof fn lemma_empty_transfer_never_times_out(
    direction: Direction,
    handle: usize,
    reply: Reply,
    transferred: u32,
)
    ensures
        completion(0, transferred) == Ok::<usize, Error>(transferred as usize),
        completion(0, 0) == Ok::<usize, Error>(0),
        reply.value == TRUE ==> (Transfer::Submitted { direction, handle, requested: 0 }).next(
            reply,
            0,
        ).0 == Transfer::Done(Ok(0)),
        reply.value != FALSE ==> (Transfer::Waiting { direction, requested: 0 }).next(reply, 0).0
            == Transfer::Done(Ok(0)),
        (Transfer::Submitted { direction: Direction::Read, handle, requested: 0 }).next(
            reply,
            transferred,
        ).0 matches Transfer::Done(Err(e)) ==> e == Error::of_io(reply.last_error) && reply.value
            != TRUE,
        (Transfer::Waiting { direction: Direction::Read, requested: 0 }).next(
            reply,
            transferred,
        ).0 matches Transfer::Done(Err(e)) ==> e == Error::of_io(reply.last_error) && reply.value
            == FALSE,
        (Transfer::Submitted { direction: Direction::Read, handle, requested: 0 }).next(
            reply,
            transferred,
        ).0 matches Transfer::Done(Err(e)) ==> e.kind != ErrorKind::TimedOut,
        (Transfer::Waiting { direction: Direction::Read, requested: 0 }).next(
            reply,
            transferred,
        ).0 matches Transfer::Done(Err(e)) ==> e.kind != ErrorKind::TimedOut,
{
}

/// A transfer for a buffer that is not empty, awaited with success and
/// completed with no bytes moved, has timed out: it is never a count of
/// zero.
pub proof fn lemma_zero_bytes_after_wait_is_timeout(
    direction: Direction,
    requested: usize,
    reply: Reply,
)
    requires
        requested != 0,
        reply.value != FALSE,
    ensures
        (Transfer::Waiting { direction, requested }).next(reply, 0) == (
            Transfer::Done(Err(Error::of_kind(ErrorKind::TimedOut))),
            None::<Call>,
        ),
{
}

/// A write sees one timeout signal: a wait that failed on the semaphore
/// timeout and a wait that moved no bytes both end in `TimedOut`.
pub proof fn lemma_write_timeouts_agree(requested: usize, failed: Reply, completed: Reply)
    requires
        requested != 0,
        failed.value == FALSE,
        failed.last_error == ERROR_SEM_TIMEOUT,
        completed.value != FALSE,
    ensures
        (Transfer::Waiting { direction: Direction::Write, requested }).next(failed, 0).0
            matches Transfer::Done(Err(e)) && e.kind == ErrorKind::TimedOut,
        (Transfer::Waiting { direction: Direction::Write, requested }).next(completed, 0).0
            matches Transfer::Done(Err(e)) && e.kind == ErrorKind::TimedOut,
{
}

} // verus!
