//! The modem control and status lines, the system's queues, and the break
//! state of the line.
//!
//! Each operation here is one system call. Where the reply is a bare
//! `BOOL`, [`Reply::status`] says what it means.

use crate::com::COMPort;
use crate::config::ClearBuffer;
use crate::error::Error;
use crate::os::{
    Call, ComStat, Reply, CLRDTR, CLRRTS, FALSE, MS_CTS_ON, MS_DSR_ON, MS_RING_ON, MS_RLSD_ON,
    PURGE_RXABORT, PURGE_RXCLEAR, PURGE_TXABORT, PURGE_TXCLEAR, SETDTR, SETRTS,
};
use vstd::prelude::*;

verus! {

/// The flags that purge a queue: pending transfers on it are aborted and
/// its bytes are discarded.
pub open spec fn purge_flags(buffer: ClearBuffer) -> u32 {
    match buffer {
        ClearBuffer::Input => PURGE_RXABORT | PURGE_RXCLEAR,
        ClearBuffer::Output => PURGE_TXABORT | PURGE_TXCLEAR,
        ClearBuffer::All => PURGE_RXABORT | PURGE_RXCLEAR | PURGE_TXABORT | PURGE_TXCLEAR,
    }
}

/// Whether the line behind the mask `pin` is on in the modem status,
/// where the status could be read.
pub open spec fn pin_read(reply: Reply, status: u32, pin: u32) -> Result<bool, Error> {
    if reply.value == FALSE {
        Err(Error::of_os(reply.last_error))
    } else {
        Ok(status & pin != 0)
    }
}

/// A queue length, where the queues could be examined. A failed call is
/// an error, never a length of zero.
pub open spec fn queue_read(reply: Reply, len: u32) -> Result<u32, Error> {
    if reply.value == FALSE {
        Err(Error::of_os(reply.last_error))
    } else {
        Ok(len)
    }
}

impl COMPort {
    /// The call that performs an extended function on the device.
    pub fn escape_comm_function(&self, function: u32) -> (call: Call)
        ensures
            call == (Call::EscapeCommFunction { handle: self.handle, function }),
    {
        Call::EscapeCommFunction { handle: self.handle, function }
    }

    /// The call that raises or lowers RTS.
    pub fn write_request_to_send(&self, level: bool) -> (call: Call)
        ensures
            call == (Call::EscapeCommFunction {
                handle: self.handle,
                function: if level {
                    SETRTS
                } else {
                    CLRRTS
                },
            }),
    {
        if level {
            self.escape_comm_function(SETRTS)
        } else {
            self.escape_comm_function(CLRRTS)
        }
    }

    /// The call that raises or lowers DTR.
    pub fn write_data_terminal_ready(&self, level: bool) -> (call: Call)
        ensures
            call == (Call::EscapeCommFunction {
                handle: self.handle,
                function: if level {
                    SETDTR
                } else {
                    CLRDTR
                },
            }),
    {
        if level {
            self.escape_comm_function(SETDTR)
        } else {
            self.escape_comm_function(CLRDTR)
        }
    }

    /// The call that reads the modem status, for any of its lines.
    pub fn read_pin(&self) -> (call: Call)
        ensures
            call == (Call::GetCommModemStatus { handle: self.handle }),
    {
        Call::GetCommModemStatus { handle: self.handle }
    }

    /// Whether the line behind the mask `pin` is on; `status` is the word
    /// that the call filled in.
    pub fn read_pin_reply(&self, reply: Reply, status: u32, pin: u32) -> (result: Result<
        bool,
        Error,
    >)
        ensures
            result == pin_read(reply, status, pin),
    {
        if reply.value == FALSE {
            Err(Error::from_os_code(reply.last_error))
        } else {
            Ok(status & pin != 0)
        }
    }

    /// The call that reads the modem status for CTS.
    pub fn read_clear_to_send(&self) -> (call: Call)
        ensures
            call == (Call::GetCommModemStatus { handle: self.handle }),
    {
        self.read_pin()
    }

    /// Whether CTS is on.
    pub fn read_clear_to_send_reply(&self, reply: Reply, status: u32) -> (result: Result<
        bool,
        Error,
    >)
        ensures
            result == pin_read(reply, status, MS_CTS_ON),
    {
        self.read_pin_reply(reply, status, MS_CTS_ON)
    }

    /// The call that reads the modem status for DSR.
    pub fn read_data_set_ready(&self) -> (call: Call)
        ensures
            call == (Call::GetCommModemStatus { handle: self.handle }),
    {
        self.read_pin()
    }

    /// Whether DSR is on.
    pub fn read_data_set_ready_reply(&self, reply: Reply, status: u32) -> (result: Result<
        bool,
        Error,
    >)
        ensures
            result == pin_read(reply, status, MS_DSR_ON),
    {
        self.read_pin_reply(reply, status, MS_DSR_ON)
    }

    /// The call that reads the modem status for the ring indicator.
    pub fn read_ring_indicator(&self) -> (call: Call)
        ensures
            call == (Call::GetCommModemStatus { handle: self.handle }),
    {
        self.read_pin()
    }

    /// Whether the ring indicator is on.
    pub fn read_ring_indicator_reply(&self, reply: Reply, status: u32) -> (result: Result<
        bool,
        Error,
    >)
        ensures
            result == pin_read(reply, status, MS_RING_ON),
    {
        self.read_pin_reply(reply, status, MS_RING_ON)
    }

    /// The call that reads the modem status for the carrier detect line.
    pub fn read_carrier_detect(&self) -> (call: Call)
        ensures
            call == (Call::GetCommModemStatus { handle: self.handle }),
    {
        self.read_pin()
    }

    /// Whether the carrier is detected.
    pub fn read_carrier_detect_reply(&self, reply: Reply, status: u32) -> (result: Result<
        bool,
        Error,
    >)
        ensures
            result == pin_read(reply, status, MS_RLSD_ON),
    {
        self.read_pin_reply(reply, status, MS_RLSD_ON)
    }

    /// The call that examines the queues for the bytes waiting to be read.
    pub fn bytes_to_read(&self) -> (call: Call)
        ensures
            call == (Call::ClearCommError { handle: self.handle }),
    {
        Call::ClearCommError { handle: self.handle }
    }

    /// The number of bytes received and not yet read; `stat` is what the
    /// call filled in.
    pub fn bytes_to_read_reply(&self, reply: Reply, stat: ComStat) -> (result: Result<u32, Error>)
        ensures
            result == queue_read(reply, stat.in_queue),
    {
        if reply.value != FALSE {
            Ok(stat.in_queue)
        } else {
            Err(Error::from_os_code(reply.last_error))
        }
    }

    /// The call that examines the queues for the bytes waiting to be sent.
    pub fn bytes_to_write(&self) -> (call: Call)
        ensures
            call == (Call::ClearCommError { handle: self.handle }),
    {
        Call::ClearCommError { handle: self.handle }
    }

    /// The number of bytes written and not yet sent; `stat` is what the
    /// call filled in.
    pub fn bytes_to_write_reply(&self, reply: Reply, stat: ComStat) -> (result: Result<
        u32,
        Error,
    >)
        ensures
            result == queue_read(reply, stat.out_queue),
    {
        if reply.value != FALSE {
            Ok(stat.out_queue)
        } else {
            Err(Error::from_os_code(reply.last_error))
        }
    }

    /// The call that discards what the chosen queues hold.
    pub fn clear(&self, buffer_to_clear: ClearBuffer) -> (call: Call)
        ensures
            call == (Call::PurgeComm { handle: self.handle, flags: purge_flags(buffer_to_clear) }),
    {
        let flags: u32 = match buffer_to_clear {
            ClearBuffer::Input => PURGE_RXABORT | PURGE_RXCLEAR,
            ClearBuffer::Output => PURGE_TXABORT | PURGE_TXCLEAR,
            ClearBuffer::All => PURGE_RXABORT | PURGE_RXCLEAR | PURGE_TXABORT | PURGE_TXCLEAR,
        };
        Call::PurgeComm { handle: self.handle, flags }
    }

    /// The call that puts the line into the break state.
    pub fn set_break(&self) -> (call: Call)
        ensures
            call == (Call::SetCommBreak { handle: self.handle }),
    {
        Call::SetCommBreak { handle: self.handle }
    }

    /// The call that takes the line out of the break state.
    pub fn clear_break(&self) -> (call: Call)
        ensures
            call == (Call::ClearCommBreak { handle: self.handle }),
    {
        Call::ClearCommBreak { handle: self.handle }
    }
}

/// The purge flags as numbers: the input queue alone, the output queue
/// alone, and both. Input and output flags share no bit.
pub proof fn lemma_purge_flag_values()
    ensures
        purge_flags(ClearBuffer::Input) == 0x000A,
        purge_flags(ClearBuffer::Output) == 0x0005,
        purge_flags(ClearBuffer::All) == 0x000F,
        purge_flags(ClearBuffer::Input) & purge_flags(ClearBuffer::Output) == 0,
        purge_flags(ClearBuffer::All) == purge_flags(ClearBuffer::Input) | purge_flags(
            ClearBuffer::Output,
        ),
{
    assert(0x0002u32 | 0x0008u32 == 0x000Au32) by (bit_vector);
    assert(0x0001u32 | 0x0004u32 == 0x0005u32) by (bit_vector);
    assert(0x0002u32 | 0x0008u32 | 0x0001u32 | 0x0004u32 == 0x000Fu32) by (bit_vector);
    assert(0x000Au32 & 0x0005u32 == 0u32) by (bit_vector);
    assert(0x000Au32 | 0x0005u32 == 0x000Fu32) by (bit_vector);
}

/// Each status line has a bit of its own in the modem status, so that one
/// line's state never shows as another's: a status with exactly one of the
/// four bits reads as that line on and the other three off.
pub proof fn lemma_pins_are_distinct(reply: Reply)
    requires
        reply.value != FALSE,
    ensures
        pin_read(reply, MS_CTS_ON, MS_CTS_ON) == Ok::<bool, Error>(true),
        pin_read(reply, MS_CTS_ON, MS_DSR_ON) == Ok::<bool, Error>(false),
        pin_read(reply, MS_CTS_ON, MS_RING_ON) == Ok::<bool, Error>(false),
        pin_read(reply, MS_CTS_ON, MS_RLSD_ON) == Ok::<bool, Error>(false),
        pin_read(reply, MS_DSR_ON, MS_DSR_ON) == Ok::<bool, Error>(true),
        pin_read(reply, MS_DSR_ON, MS_RING_ON) == Ok::<bool, Error>(false),
        pin_read(reply, MS_DSR_ON, MS_RLSD_ON) == Ok::<bool, Error>(false),
        pin_read(reply, MS_RING_ON, MS_RING_ON) == Ok::<bool, Error>(true),
        pin_read(reply, MS_RING_ON, MS_RLSD_ON) == Ok::<bool, Error>(false),
        pin_read(reply, MS_RLSD_ON, MS_RLSD_ON) == Ok::<bool, Error>(true),
        pin_read(reply, 0, MS_CTS_ON) == Ok::<bool, Error>(false),
{
    assert(0x10u32 & 0x10u32 != 0u32) by (bit_vector);
    assert(0x10u32 & 0x20u32 == 0u32) by (bit_vector);
    assert(0x10u32 & 0x40u32 == 0u32) by (bit_vector);
    assert(0x10u32 & 0x80u32 == 0u32) by (bit_vector);
    assert(0x20u32 & 0x20u32 != 0u32) by (bit_vector);
    assert(0x20u32 & 0x40u32 == 0u32) by (bit_vector);
    assert(0x20u32 & 0x80u32 == 0u32) by (bit_vector);
    assert(0x40u32 & 0x40u32 != 0u32) by (bit_vector);
    assert(0x40u32 & 0x80u32 == 0u32) by (bit_vector);
    assert(0x80u32 & 0x80u32 != 0u32) by (bit_vector);
    assert(0u32 & 0x10u32 == 0u32) by (bit_vector);
}

} // verus!
