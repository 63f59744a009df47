//! A COM port: the device handle, its life cycle, and every operation on
//! it, each as the system calls to make and the meaning of their replies.

use crate::config::SerialPortBuilder;
use crate::dcb::Dcb;
use crate::error::Error;
use crate::os::{
    Call, Reply, DUPLICATE_SAME_ACCESS, FALSE, FILE_ATTRIBUTE_NORMAL, FILE_FLAG_OVERLAPPED,
    GENERIC_READ, GENERIC_WRITE, INVALID_HANDLE_VALUE, NULL_HANDLE, OPEN_EXISTING,
};
use crate::path::{device_path, wide_device_path};
use crate::time::Duration;
use crate::timeouts::CommTimeouts;
use vstd::multiset::Multiset;
use vstd::prelude::*;

verus! {

/// An open serial device.
///
/// A port owns two system resources: the handle of the device and an event
/// on which pending transfers are awaited. Both are given back together,
/// by the calls of [`COMPort::close`].
#[derive(Debug)]
pub struct COMPort {
    /// The device handle.
    pub handle: usize,
    /// The event that signals the completion of a transfer.
    pub event: usize,
    /// The timeout that this port pushed to the system last.
    pub timeout: Duration,
    /// The name that the port was opened under, where it is known.
    pub port_name: Option<String>,
}

/// Where the opening of a port stands. Each state but the last two waits
/// for the reply to the call that led to it.
#[derive(Debug)]
pub enum Opening {
    /// `CreateFile` was asked for.
    Handle { builder: SerialPortBuilder },
    /// The device handle is there; `CreateEvent` was asked for.
    Event { builder: SerialPortBuilder, handle: usize },
    /// Handle and event are there; the configuration is being pushed.
    Config { builder: SerialPortBuilder, handle: usize, event: usize },
    /// The configuration is in force; the timeout is being pushed.
    Timeout { builder: SerialPortBuilder, handle: usize, event: usize },
    /// Opening failed with `error` and a handle is being closed; `pending`
    /// is the handle to close after it.
    Releasing { error: Error, pending: Option<usize> },
    /// The port is open.
    Opened(COMPort),
    /// Opening failed, and nothing is held any more.
    Failed(Error),
}

impl Opening {
    /// The handles that the machine has been given and has not yet asked
    /// to be closed.
    pub open spec fn held(self) -> Multiset<usize> {
        match self {
            Opening::Handle { .. } => Multiset::empty(),
            Opening::Event { handle, .. } => Multiset::singleton(handle),
            Opening::Config { handle, event, .. } => Multiset::singleton(handle).insert(event),
            Opening::Timeout { handle, event, .. } => Multiset::singleton(handle).insert(event),
            Opening::Releasing { pending: Some(handle), .. } => Multiset::singleton(handle),
            Opening::Releasing { pending: None, .. } => Multiset::empty(),
            Opening::Opened(port) => Multiset::singleton(port.handle).insert(port.event),
            Opening::Failed(_) => Multiset::empty(),
        }
    }

    /// The handles that `reply` hands to the machine in this state.
    pub open spec fn acquired(self, reply: Reply) -> Multiset<usize> {
        match self {
            Opening::Handle { .. } => if reply.value != INVALID_HANDLE_VALUE {
                Multiset::singleton(reply.value)
            } else {
                Multiset::empty()
            },
            Opening::Event { .. } => if reply.value != NULL_HANDLE {
                Multiset::singleton(reply.value)
            } else {
                Multiset::empty()
            },
            _ => Multiset::empty(),
        }
    }

    /// Whether opening has come to its end.
    pub open spec fn is_final(self) -> bool {
        self is Opened || self is Failed
    }

    /// The state after `reply`, and the call to make next, if any.
    ///
    /// A failure before anything is held ends the opening at once. A later
    /// failure first closes everything held, the device handle before the
    /// event, whatever the replies to the closing calls are, and then ends
    /// with the error of the call that failed.
    pub open spec fn next(self, reply: Reply) -> (Opening, Option<Call>) {
        match self {
            Opening::Handle { builder } => if reply.value == INVALID_HANDLE_VALUE {
                (Opening::Failed(Error::of_os(reply.last_error)), None)
            } else {
                (
                    Opening::Event { builder, handle: reply.value },
                    Some(Call::CreateEvent { manual_reset: false, initial_state: false }),
                )
            },
            Opening::Event { builder, handle } => if reply.value == NULL_HANDLE {
                (
                    Opening::Releasing { error: Error::of_os(reply.last_error), pending: None },
                    Some(Call::CloseHandle { handle }),
                )
            } else {
                (
                    Opening::Config { builder, handle, event: reply.value },
                    Some(Call::SetCommState { handle, dcb: Dcb::of_builder(builder) }),
                )
            },
            Opening::Config { builder, handle, event } => if reply.value == FALSE {
                (
                    Opening::Releasing {
                        error: Error::of_os(reply.last_error),
                        pending: Some(event),
                    },
                    Some(Call::CloseHandle { handle }),
                )
            } else {
                (
                    Opening::Timeout { builder, handle, event },
                    Some(
                        Call::SetCommTimeouts {
                            handle,
                            timeouts: CommTimeouts::of(builder.timeout),
                        },
                    ),
                )
            },
            Opening::Timeout { builder, handle, event } => if reply.value == FALSE {
                (
                    Opening::Releasing {
                        error: Error::of_os(reply.last_error),
                        pending: Some(event),
                    },
                    Some(Call::CloseHandle { handle }),
                )
            } else {
                (
                    Opening::Opened(
                        COMPort {
                            handle,
                            event,
                            timeout: builder.timeout,
                            port_name: Some(builder.path),
                        },
                    ),
                    None,
                )
            },
            Opening::Releasing { error, pending: Some(handle) } => (
                Opening::Releasing { error, pending: None },
                Some(Call::CloseHandle { handle }),
            ),
            Opening::Releasing { error, pending: None } => (Opening::Failed(error), None),
            Opening::Opened(port) => (Opening::Opened(port), None),
            Opening::Failed(error) => (Opening::Failed(error), None),
        }
    }

    /// Takes the reply to the call made last and says what to do next:
    /// make the call returned, or, where none is returned, stop, because
    /// the port is open or opening has failed.
    pub fn step(self, reply: Reply) -> (result: (Opening, Option<Call>))
        ensures
            result == self.next(reply),
            result.1 is None <==> result.0.is_final(),
    {
        match self {
            Opening::Handle { builder } => {
                if reply.value == INVALID_HANDLE_VALUE {
                    (Opening::Failed(Error::from_os_code(reply.last_error)), None)
                } else {
                    (
                        Opening::Event { builder, handle: reply.value },
                        Some(Call::CreateEvent { manual_reset: false, initial_state: false }),
                    )
                }
            },
            Opening::Event { builder, handle } => {
                if reply.value == NULL_HANDLE {
                    (
                        Opening::Releasing {
                            error: Error::from_os_code(reply.last_error),
                            pending: None,
                        },
                        Some(Call::CloseHandle { handle }),
                    )
                } else {
                    let dcb = Dcb::from_builder(&builder);
                    (
                        Opening::Config { builder, handle, event: reply.value },
                        Some(Call::SetCommState { handle, dcb }),
                    )
                }
            },
            Opening::Config { builder, handle, event } => {
                if reply.value == FALSE {
                    (
                        Opening::Releasing {
                            error: Error::from_os_code(reply.last_error),
                            pending: Some(event),
                        },
                        Some(Call::CloseHandle { handle }),
                    )
                } else {
                    let timeouts = CommTimeouts::for_duration(builder.timeout);
                    (
                        Opening::Timeout { builder, handle, event },
                        Some(Call::SetCommTimeouts { handle, timeouts }),
                    )
                }
            },
            Opening::Timeout { builder, handle, event } => {
                if reply.value == FALSE {
                    (
                        Opening::Releasing {
                            error: Error::from_os_code(reply.last_error),
                            pending: Some(event),
                        },
                        Some(Call::CloseHandle { handle }),
                    )
                } else {
                    (
                        Opening::Opened(
                            COMPort {
                                handle,
                                event,
                                timeout: builder.timeout,
                                port_name: Some(builder.path),
                            },
                        ),
                        None,
                    )
                }
            },
            Opening::Releasing { error, pending: Some(handle) } => (
                Opening::Releasing { error, pending: None },
                Some(Call::CloseHandle { handle }),
            ),
            Opening::Releasing { error, pending: None } => (Opening::Failed(error), None),
            Opening::Opened(port) => (Opening::Opened(port), None),
            Opening::Failed(error) => (Opening::Failed(error), None),
        }
    }

    /// The port, once opening has succeeded; the error, once it has failed;
    /// and the machine itself for as long as it is under way.
    pub fn finish(self) -> (result: Result<Result<COMPort, Error>, Opening>)
        ensures
            match self {
                Opening::Opened(port) => result == Ok::<Result<COMPort, Error>, Opening>(Ok(port)),
                Opening::Failed(error) => result == Ok::<Result<COMPort, Error>, Opening>(
                    Err(error),
                ),
                _ => result == Err::<Result<COMPort, Error>, Opening>(self),
            },
    {
        match self {
            Opening::Opened(port) => Ok(Ok(port)),
            Opening::Failed(error) => Ok(Err(error)),
            other => Err(other),
        }
    }
}

impl COMPort {
    /// Starts to open the device that `builder` names.
    ///
    /// The call to make first asks for the device under its prefixed name,
    /// for reading and writing, shared with nobody, and in overlapped mode.
    /// Its reply, and that of every call that follows, goes to
    /// [`Opening::step`].
    pub fn open(builder: &SerialPortBuilder) -> (result: (Opening, Call))
        ensures
            result.0 == (Opening::Handle { builder: *builder }),
            result.1 matches Call::CreateFile {
                path,
                desired_access,
                share_mode,
                creation_disposition,
                flags_and_attributes,
            } && path@ == wide_device_path(builder.path@) && desired_access == GENERIC_READ
                | GENERIC_WRITE && share_mode == 0 && creation_disposition == OPEN_EXISTING
                && flags_and_attributes == FILE_ATTRIBUTE_NORMAL | FILE_FLAG_OVERLAPPED,
    {
        let path = device_path(builder.path.as_str());
        let call = Call::CreateFile {
            path,
            desired_access: GENERIC_READ | GENERIC_WRITE,
            share_mode: 0,
            creation_disposition: OPEN_EXISTING,
            flags_and_attributes: FILE_ATTRIBUTE_NORMAL | FILE_FLAG_OVERLAPPED,
        };
        let builder = SerialPortBuilder {
            path: builder.path.clone(),
            baud_rate: builder.baud_rate,
            data_bits: builder.data_bits,
            flow_control: builder.flow_control,
            parity: builder.parity,
            stop_bits: builder.stop_bits,
            timeout: builder.timeout,
        };
        (Opening::Handle { builder }, call)
    }
}

/// Where the duplication of a port stands.
#[derive(Debug)]
pub enum Cloning {
    /// `CreateEvent` was asked for, for the new port's own event.
    Event { source: usize, timeout: Duration, port_name: Option<String> },
    /// The event is there; `DuplicateHandle` was asked for.
    Handle { event: usize, timeout: Duration, port_name: Option<String> },
    /// Duplication failed with `error`; the new event is being closed.
    Releasing { error: Error },
    /// The second port is there.
    Cloned(COMPort),
    /// Duplication failed, and nothing is held any more.
    Failed(Error),
}

impl Cloning {
    /// The handles that the machine has been given and has not yet asked
    /// to be closed. The port that is duplicated keeps its own.
    pub open spec fn held(self) -> Multiset<usize> {
        match self {
            Cloning::Event { .. } => Multiset::empty(),
            Cloning::Handle { event, .. } => Multiset::singleton(event),
            Cloning::Releasing { .. } => Multiset::empty(),
            Cloning::Cloned(port) => Multiset::singleton(port.handle).insert(port.event),
            Cloning::Failed(_) => Multiset::empty(),
        }
    }

    /// The handles that `reply` hands to the machine in this state.
    pub open spec fn acquired(self, reply: Reply) -> Multiset<usize> {
        match self {
            Cloning::Event { .. } => if reply.value != NULL_HANDLE {
                Multiset::singleton(reply.value)
            } else {
                Multiset::empty()
            },
            Cloning::Handle { .. } => if reply.value != INVALID_HANDLE_VALUE {
                Multiset::singleton(reply.value)
            } else {
                Multiset::empty()
            },
            _ => Multiset::empty(),
        }
    }

    /// Whether duplication has come to its end.
    pub open spec fn is_final(self) -> bool {
        self is Cloned || self is Failed
    }

    /// The state after `reply`, and the call to make next, if any.
    ///
    /// The new port gets the handle that the system duplicated, its own
    /// event, and copies of the name and of the cached timeout. Where the
    /// system duplicates nothing, the new event is closed again.
    pub open spec fn next(self, reply: Reply) -> (Cloning, Option<Call>) {
        match self {
            Cloning::Event { source, timeout, port_name } => if reply.value == NULL_HANDLE {
                (Cloning::Failed(Error::of_os(reply.last_error)), None)
            } else {
                (
                    Cloning::Handle { event: reply.value, timeout, port_name },
                    Some(
                        Call::DuplicateHandle {
                            source,
                            desired_access: 0,
                            inherit: true,
                            options: DUPLICATE_SAME_ACCESS,
                        },
                    ),
                )
            },
            Cloning::Handle { event, timeout, port_name } => if reply.value
                != INVALID_HANDLE_VALUE {
                (Cloning::Cloned(COMPort { handle: reply.value, event, timeout, port_name }), None)
            } else {
                (
                    Cloning::Releasing { error: Error::of_os(reply.last_error) },
                    Some(Call::CloseHandle { handle: event }),
                )
            },
            Cloning::Releasing { error } => (Cloning::Failed(error), None),
            Cloning::Cloned(port) => (Cloning::Cloned(port), None),
            Cloning::Failed(error) => (Cloning::Failed(error), None),
        }
    }

    /// Takes the reply to the call made last and says what to do next:
    /// make the call returned, or, where none is returned, stop.
    pub fn step(self, reply: Reply) -> (result: (Cloning, Option<Call>))
        ensures
            result == self.next(reply),
            result.1 is None <==> result.0.is_final(),
    {
        match self {
            Cloning::Event { source, timeout, port_name } => {
                if reply.value == NULL_HANDLE {
                    (Cloning::Failed(Error::from_os_code(reply.last_error)), None)
                } else {
                    (
                        Cloning::Handle { event: reply.value, timeout, port_name },
                        Some(
                            Call::DuplicateHandle {
                                source,
                                desired_access: 0,
                                inherit: true,
                                options: DUPLICATE_SAME_ACCESS,
                            },
                        ),
                    )
                }
            },
            Cloning::Handle { event, timeout, port_name } => {
                if reply.value != INVALID_HANDLE_VALUE {
                    (
                        Cloning::Cloned(COMPort { handle: reply.value, event, timeout, port_name }),
                        None,
                    )
                } else {
                    (
                        Cloning::Releasing { error: Error::from_os_code(reply.last_error) },
                        Some(Call::CloseHandle { handle: event }),
                    )
                }
            },
            Cloning::Releasing { error } => (Cloning::Failed(error), None),
            Cloning::Cloned(port) => (Cloning::Cloned(port), None),
            Cloning::Failed(error) => (Cloning::Failed(error), None),
        }
    }

    /// The second port, once duplication has succeeded; the error, once it
    /// has failed; and the machine itself for as long as it is under way.
    pub fn finish(self) -> (result: Result<Result<COMPort, Error>, Cloning>)
        ensures
            match self {
                Cloning::Cloned(port) => result == Ok::<Result<COMPort, Error>, Cloning>(Ok(port)),
                Cloning::Failed(error) => result == Ok::<Result<COMPort, Error>, Cloning>(
                    Err(error),
                ),
                _ => result == Err::<Result<COMPort, Error>, Cloning>(self),
            },
    {
        match self {
            Cloning::Cloned(port) => Ok(Ok(port)),
            Cloning::Failed(error) => Ok(Err(error)),
            other => Err(other),
        }
    }
}

impl COMPort {
    /// A port around a device handle and an event that the caller has
    /// made. The name is unknown, and the timeout is taken to be 100 ms
    /// until one is set.
    pub fn open_from_raw_handle(handle: usize, event: usize) -> (port: COMPort)
        ensures
            port.handle == handle,
            port.event == event,
            port.timeout.as_nanos() == 100_000_000,
            port.port_name is None,
    {
        COMPort { handle, event, timeout: Duration::from_millis(100), port_name: None }
    }

    /// Starts to make a second port for the same device, so that one can
    /// read while the other writes. Each port caches its timeout for
    /// itself.
    pub fn try_clone_native(&self) -> (result: (Cloning, Call))
        ensures
            result.0 == (Cloning::Event {
                source: self.handle,
                timeout: self.timeout,
                port_name: self.port_name,
            }),
            result.1 == (Call::CreateEvent { manual_reset: false, initial_state: false }),
    {
        (
            Cloning::Event {
                source: self.handle,
                timeout: self.timeout,
                port_name: self.name(),
            },
            Call::CreateEvent { manual_reset: false, initial_state: false },
        )
    }

    /// The name that the port was opened under, where it is known.
    pub fn name(&self) -> (name: Option<String>)
        ensures
            name == self.port_name,
    {
        match &self.port_name {
            Some(name) => Some(name.clone()),
            None => None,
        }
    }

    /// The timeout that this port pushed to the system last.
    pub fn timeout(&self) -> (timeout: Duration)
        ensures
            timeout == self.timeout,
    {
        self.timeout
    }

    /// The call that puts `timeout` in force.
    pub fn set_timeout(&self, timeout: Duration) -> (call: Call)
        ensures
            call == (Call::SetCommTimeouts {
                handle: self.handle,
                timeouts: CommTimeouts::of(timeout),
            }),
    {
        Call::SetCommTimeouts { handle: self.handle, timeouts: CommTimeouts::for_duration(timeout) }
    }

    /// What the reply to the call of [`COMPort::set_timeout`] means: the
    /// port caches `timeout` where the system took it, and keeps what it
    /// had cached where it did not.
    pub fn set_timeout_reply(&mut self, timeout: Duration, reply: Reply) -> (result: Result<
        (),
        Error,
    >)
        ensures
            final(self).handle == old(self).handle,
            final(self).event == old(self).event,
            final(self).port_name == old(self).port_name,
            reply.value == FALSE ==> result == Err::<(), Error>(Error::of_os(reply.last_error))
                && final(self).timeout == old(self).timeout,
            reply.value != FALSE ==> result == Ok::<(), Error>(()) && final(self).timeout
                == timeout,
    {
        if reply.value == FALSE {
            return Err(Error::from_os_code(reply.last_error));
        }
        self.timeout = timeout;
        Ok(())
    }

    /// The two calls that end the port's life: one for its handle and one
    /// for its event, and none for anything else.
    pub open spec fn closing_calls(self) -> (Call, Call) {
        (Call::CloseHandle { handle: self.handle }, Call::CloseHandle { handle: self.event })
    }

    /// Ends the port's life: the two calls that give its handle and its
    /// event back. Both are to be made, the second also where the first
    /// fails.
    pub fn close(self) -> (calls: (Call, Call))
        ensures
            calls == self.closing_calls(),
    {
        (Call::CloseHandle { handle: self.handle }, Call::CloseHandle { handle: self.event })
    }
}

} // verus!
