//! The portable line configuration.

use crate::time::Duration;
use vstd::prelude::*;

verus! {

/// Number of bits per character.
#[derive(Clone, Copy, Debug, PartialEq, Eq, Structural)]
pub enum DataBits {
    Five,
    Six,
    Seven,
    Eight,
}

/// Parity checking mode. Mark and space parity are not part of the
/// portable model.
#[derive(Clone, Copy, Debug, PartialEq, Eq, Structural)]
pub enum Parity {
    Off,
    Odd,
    Even,
}

/// Number of stop bits. One and a half stop bits are not part of the
/// portable model.
#[derive(Clone, Copy, Debug, PartialEq, Eq, Structural)]
pub enum StopBits {
    One,
    Two,
}

/// Flow control mode. It is one value for both directions: the portable
/// model cannot ask for flow control in one direction only.
#[derive(Clone, Copy, Debug, PartialEq, Eq, Structural)]
pub enum FlowControl {
    Off,
    /// XON/XOFF bytes, sent and obeyed.
    Software,
    /// RTS/CTS signals, driven and obeyed.
    Hardware,
}

/// Which of the system's queues to discard.
#[derive(Clone, Copy, Debug, PartialEq, Eq, Structural)]
pub enum ClearBuffer {
    Input,
    Output,
    All,
}

/// Everything that opening a port needs to know.
#[derive(Clone, Debug)]
pub struct SerialPortBuilder {
    /// The device's name, such as `COM1`.
    pub path: String,
    pub baud_rate: u32,
    pub data_bits: DataBits,
    pub flow_control: FlowControl,
    pub parity: Parity,
    pub stop_bits: StopBits,
    pub timeout: Duration,
}

impl SerialPortBuilder {
    /// A configuration for the device `path` at `baud_rate`, with eight data
    /// bits, no parity, one stop bit, no flow control and no timeout.
    pub fn new(path: String, baud_rate: u32) -> (builder: SerialPortBuilder)
        ensures
            builder.path == path,
            builder.baud_rate == baud_rate,
            builder.data_bits == DataBits::Eight,
            builder.flow_control == FlowControl::Off,
            builder.parity == Parity::Off,
            builder.stop_bits == StopBits::One,
            builder.timeout.as_nanos() == 0,
    {
        SerialPortBuilder {
            path,
            baud_rate,
            data_bits: DataBits::Eight,
            flow_control: FlowControl::Off,
            parity: Parity::Off,
            stop_bits: StopBits::One,
            timeout: Duration::from_millis(0),
        }
    }
}

/// A serial device as an enumeration reports it.
#[derive(Clone, Debug)]
pub struct SerialPortInfo {
    /// The name under which the device can be opened.
    pub port_name: String,
}

} // verus!
