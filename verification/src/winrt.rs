//! The serial port as the sandboxed runtime has it, where devices cannot
//! be reached through the communications API. It offers the operations of a
//! COM port and performs none of them: no device is ever opened, nothing
//! is transferred, and every setting is accepted and dropped.

use crate::config::{
    ClearBuffer, DataBits, FlowControl, Parity, SerialPortBuilder, SerialPortInfo, StopBits,
};
use crate::error::{Error, ErrorKind};
use crate::time::Duration;
use vstd::prelude::*;

verus! {

/// A serial port that is connected to nothing.
#[derive(Debug)]
pub struct COMPort {
    pub timeout: Duration,
    pub port_name: Option<String>,
}

impl COMPort {
    /// Opening fails, whatever `builder` asks for, with the error behind
    /// `last_error`, the calling thread's last-error code.
    pub fn open(builder: &SerialPortBuilder, last_error: u32) -> (result: Result<COMPort, Error>)
        ensures
            result == Err::<COMPort, Error>(Error::of_os(last_error)),
    {
        Err(Error::from_os_code(last_error))
    }

    /// Reading moves no bytes and times out.
    pub fn read(&mut self, len: usize) -> (result: Result<usize, Error>)
        ensures
            *final(self) == *old(self),
            result == Err::<usize, Error>(Error::of_kind(ErrorKind::TimedOut)),
    {
        Err(Error::new(ErrorKind::TimedOut))
    }

    /// Writing moves no bytes and times out.
    pub fn write(&mut self, len: usize) -> (result: Result<usize, Error>)
        ensures
            *final(self) == *old(self),
            result == Err::<usize, Error>(Error::of_kind(ErrorKind::TimedOut)),
    {
        Err(Error::new(ErrorKind::TimedOut))
    }

    /// Flushing times out.
    pub fn flush(&mut self) -> (result: Result<(), Error>)
        ensures
            *final(self) == *old(self),
            result == Err::<(), Error>(Error::of_kind(ErrorKind::TimedOut)),
    {
        Err(Error::new(ErrorKind::TimedOut))
    }

    pub fn name(&self) -> (name: Option<String>)
        ensures
            name == self.port_name,
    {
        match &self.port_name {
            Some(name) => Some(name.clone()),
            None => None,
        }
    }

    pub fn timeout(&self) -> (timeout: Duration)
        ensures
            timeout == self.timeout,
    {
        self.timeout
    }

    /// The timeout is accepted and not kept.
    pub fn set_timeout(&mut self, timeout: Duration) -> (result: Result<(), Error>)
        ensures
            *final(self) == *old(self),
            result == Ok::<(), Error>(()),
    {
        Ok(())
    }

    pub fn write_request_to_send(&mut self, level: bool) -> (result: Result<(), Error>)
        ensures
            *final(self) == *old(self),
            result == Ok::<(), Error>(()),
    {
        Ok(())
    }

    pub fn write_data_terminal_ready(&mut self, level: bool) -> (result: Result<(), Error>)
        ensures
            *final(self) == *old(self),
            result == Ok::<(), Error>(()),
    {
        Ok(())
    }

    /// Every status line reads as on.
    pub fn read_clear_to_send(&mut self) -> (result: Result<bool, Error>)
        ensures
            *final(self) == *old(self),
            result == Ok::<bool, Error>(true),
    {
        Ok(true)
    }

    pub fn read_data_set_ready(&mut self) -> (result: Result<bool, Error>)
        ensures
            *final(self) == *old(self),
            result == Ok::<bool, Error>(true),
    {
        Ok(true)
    }

    pub fn read_ring_indicator(&mut self) -> (result: Result<bool, Error>)
        ensures
            *final(self) == *old(self),
            result == Ok::<bool, Error>(true),
    {
        Ok(true)
    }

    pub fn read_carrier_detect(&mut self) -> (result: Result<bool, Error>)
        ensures
            *final(self) == *old(self),
            result == Ok::<bool, Error>(true),
    {
        Ok(true)
    }

    /// The baud rate reads as zero.
    pub fn baud_rate(&self) -> (result: Result<u32, Error>)
        ensures
            result == Ok::<u32, Error>(0),
    {
        Ok(0)
    }

    /// There is no configuration to read the data bits from.
    pub fn data_bits(&self) -> (result: Result<DataBits, Error>)
        ensures
            result == Err::<DataBits, Error>(Error::of_kind(ErrorKind::Unknown)),
    {
        Err(Error::new(ErrorKind::Unknown))
    }

    /// There is no configuration to read the parity mode from.
    pub fn parity(&self) -> (result: Result<Parity, Error>)
        ensures
            result == Err::<Parity, Error>(Error::of_kind(ErrorKind::Unknown)),
    {
        Err(Error::new(ErrorKind::Unknown))
    }

    /// There is no configuration to read the stop bits from.
    pub fn stop_bits(&self) -> (result: Result<StopBits, Error>)
        ensures
            result == Err::<StopBits, Error>(Error::of_kind(ErrorKind::Unknown)),
    {
        Err(Error::new(ErrorKind::Unknown))
    }

    /// There is no configuration to read the flow control from.
    pub fn flow_control(&self) -> (result: Result<FlowControl, Error>)
        ensures
            result == Err::<FlowControl, Error>(Error::of_kind(ErrorKind::Unknown)),
    {
        Err(Error::new(ErrorKind::Unknown))
    }

    pub fn set_baud_rate(&mut self, baud_rate: u32) -> (result: Result<(), Error>)
        ensures
            *final(self) == *old(self),
            result == Ok::<(), Error>(()),
    {
        Ok(())
    }

    pub fn set_data_bits(&mut self, data_bits: DataBits) -> (result: Result<(), Error>)
        ensures
            *final(self) == *old(self),
            result == Ok::<(), Error>(()),
    {
        Ok(())
    }

    pub fn set_parity(&mut self, parity: Parity) -> (result: Result<(), Error>)
        ensures
            *final(self) == *old(self),
            result == Ok::<(), Error>(()),
    {
        Ok(())
    }

    pub fn set_stop_bits(&mut self, stop_bits: StopBits) -> (result: Result<(), Error>)
        ensures
            *final(self) == *old(self),
            result == Ok::<(), Error>(()),
    {
        Ok(())
    }

    pub fn set_flow_control(&mut self, flow_control: FlowControl) -> (result: Result<(), Error>)
        ensures
            *final(self) == *old(self),
            result == Ok::<(), Error>(()),
    {
        Ok(())
    }

    /// Nothing ever waits to be read.
    pub fn bytes_to_read(&self) -> (result: Result<u32, Error>)
        ensures
            result == Ok::<u32, Error>(0),
    {
        Ok(0)
    }

    /// Nothing ever waits to be sent.
    pub fn bytes_to_write(&self) -> (result: Result<u32, Error>)
        ensures
            result == Ok::<u32, Error>(0),
    {
        Ok(0)
    }

    pub fn clear(&self, buffer_to_clear: ClearBuffer) -> (result: Result<(), Error>)
        ensures
            result == Ok::<(), Error>(()),
    {
        Ok(())
    }

    /// Duplicating fails with the error behind `last_error`, the calling
    /// thread's last-error code.
    pub fn try_clone(&self, last_error: u32) -> (result: Result<COMPort, Error>)
        ensures
            result == Err::<COMPort, Error>(Error::of_os(last_error)),
    {
        Err(Error::from_os_code(last_error))
    }
}

/// The serial devices of the system: none can be listed.
pub fn available_ports() -> (result: Result<Vec<SerialPortInfo>, Error>)
    ensures
        result matches Ok(ports) && ports@ == Seq::<SerialPortInfo>::empty(),
{
    let ports: Vec<SerialPortInfo> = Vec::new();
    Ok(ports)
}

} // verus!
