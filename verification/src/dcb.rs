//! The native configuration record of a communications device, and the
//! mapping between it and the portable line configuration.
//!
//! The system replaces the record as a whole. Every function here that
//! changes a setting therefore takes a complete record and changes only the
//! fields that belong to the setting.

use crate::config::{DataBits, FlowControl, Parity, SerialPortBuilder, StopBits};
use crate::error::{Error, ErrorKind};
use vstd::prelude::*;

verus! {

pub const NOPARITY: u8 = 0;

pub const ODDPARITY: u8 = 1;

pub const EVENPARITY: u8 = 2;

pub const ONESTOPBIT: u8 = 0;

pub const TWOSTOPBITS: u8 = 2;

/// How the device drives the DTR line.
#[derive(Clone, Copy, Debug, PartialEq, Eq, Structural)]
pub enum DtrControl {
    Disable,
    Enable,
    Handshake,
    /// The fourth value of the two-bit field, which the system leaves
    /// undefined.
    Reserved,
}

/// How the device drives the RTS line.
#[derive(Clone, Copy, Debug, PartialEq, Eq, Structural)]
pub enum RtsControl {
    Disable,
    Enable,
    Handshake,
    Toggle,
}

/// The device control block: the complete native configuration of a
/// communications device, one field for each member of the system's record
/// but its length.
#[derive(Clone, Copy, Debug, PartialEq, Eq, Structural)]
pub struct Dcb {
    pub baud_rate: u32,
    /// Binary mode; the system supports no other.
    pub binary: bool,
    /// Whether parity is checked and errors are reported.
    pub parity_check: bool,
    /// Whether output stops while CTS is off.
    pub outx_cts_flow: bool,
    /// Whether output stops while DSR is off.
    pub outx_dsr_flow: bool,
    pub dtr_control: DtrControl,
    pub dsr_sensitivity: bool,
    pub tx_continue_on_xoff: bool,
    /// Whether XON/XOFF governs output.
    pub out_x: bool,
    /// Whether XON/XOFF governs input.
    pub in_x: bool,
    /// Whether bytes with parity errors are replaced by `error_char`.
    pub replace_errors: bool,
    /// Whether received null bytes are discarded.
    pub discard_nulls: bool,
    pub rts_control: RtsControl,
    pub abort_on_error: bool,
    /// The unused bits of the record's flags, of which the low 17 count.
    pub reserved_flags: u32,
    pub reserved: u16,
    pub xon_lim: u16,
    pub xoff_lim: u16,
    /// Bits per character.
    pub byte_size: u8,
    /// `NOPARITY`, `ODDPARITY`, `EVENPARITY`, or a mode beyond the portable
    /// model.
    pub parity: u8,
    /// `ONESTOPBIT`, `TWOSTOPBITS`, or a mode beyond the portable model.
    pub stop_bits: u8,
    pub xon_char: i8,
    pub xoff_char: i8,
    pub error_char: i8,
    pub eof_char: i8,
    pub evt_char: i8,
    pub reserved1: u16,
}

/// The native byte size of a number of data bits.
pub open spec fn byte_size_of(data_bits: DataBits) -> u8 {
    match data_bits {
        DataBits::Five => 5,
        DataBits::Six => 6,
        DataBits::Seven => 7,
        DataBits::Eight => 8,
    }
}

/// The native code of a parity mode.
pub open spec fn parity_code_of(parity: Parity) -> u8 {
    match parity {
        Parity::Off => NOPARITY,
        Parity::Odd => ODDPARITY,
        Parity::Even => EVENPARITY,
    }
}

/// The native code of a number of stop bits.
pub open spec fn stop_bits_code_of(stop_bits: StopBits) -> u8 {
    match stop_bits {
        StopBits::One => ONESTOPBIT,
        StopBits::Two => TWOSTOPBITS,
    }
}

impl Dcb {
    /// The record with every field zero.
    pub open spec fn zeroed() -> Dcb {
        Dcb {
            baud_rate: 0,
            binary: false,
            parity_check: false,
            outx_cts_flow: false,
            outx_dsr_flow: false,
            dtr_control: DtrControl::Disable,
            dsr_sensitivity: false,
            tx_continue_on_xoff: false,
            out_x: false,
            in_x: false,
            replace_errors: false,
            discard_nulls: false,
            rts_control: RtsControl::Disable,
            abort_on_error: false,
            reserved_flags: 0,
            reserved: 0,
            xon_lim: 0,
            xoff_lim: 0,
            byte_size: 0,
            parity: 0,
            stop_bits: 0,
            xon_char: 0,
            xoff_char: 0,
            error_char: 0,
            eof_char: 0,
            evt_char: 0,
            reserved1: 0,
        }
    }

    /// The record with the fields set that no setting of the portable
    /// configuration reaches: binary mode, the usual XON, XOFF and
    /// end-of-file characters, DTR left alone, and nothing done about
    /// errors or null bytes.
    pub open spec fn initialised(self) -> Dcb {
        Dcb {
            xon_char: 17,
            xoff_char: 19,
            error_char: 0,
            eof_char: 26,
            binary: true,
            outx_dsr_flow: false,
            dtr_control: DtrControl::Disable,
            dsr_sensitivity: false,
            replace_errors: false,
            discard_nulls: false,
            abort_on_error: false,
            ..self
        }
    }

    pub open spec fn with_baud_rate(self, baud_rate: u32) -> Dcb {
        Dcb { baud_rate, ..self }
    }

    pub open spec fn with_data_bits(self, data_bits: DataBits) -> Dcb {
        Dcb { byte_size: byte_size_of(data_bits), ..self }
    }

    /// The parity mode, and parity checking on for every mode but `Off`.
    pub open spec fn with_parity(self, parity: Parity) -> Dcb {
        Dcb { parity: parity_code_of(parity), parity_check: parity != Parity::Off, ..self }
    }

    pub open spec fn with_stop_bits(self, stop_bits: StopBits) -> Dcb {
        Dcb { stop_bits: stop_bits_code_of(stop_bits), ..self }
    }

    /// All four flow control fields at once: hardware flow control is CTS
    /// for output together with the RTS handshake for input, software flow
    /// control is XON/XOFF in both directions.
    pub open spec fn with_flow_control(self, flow_control: FlowControl) -> Dcb {
        Dcb {
            outx_cts_flow: flow_control == FlowControl::Hardware,
            rts_control: if flow_control == FlowControl::Hardware {
                RtsControl::Handshake
            } else {
                RtsControl::Disable
            },
            out_x: flow_control == FlowControl::Software,
            in_x: flow_control == FlowControl::Software,
            ..self
        }
    }

    /// The record that a port is opened with.
    pub open spec fn of_builder(builder: SerialPortBuilder) -> Dcb {
        Dcb::zeroed().initialised().with_baud_rate(builder.baud_rate).with_data_bits(
            builder.data_bits,
        ).with_parity(builder.parity).with_stop_bits(builder.stop_bits).with_flow_control(
            builder.flow_control,
        )
    }

    pub open spec fn data_bits(self) -> Result<DataBits, Error> {
        if self.byte_size == 5 {
            Ok(DataBits::Five)
        } else if self.byte_size == 6 {
            Ok(DataBits::Six)
        } else if self.byte_size == 7 {
            Ok(DataBits::Seven)
        } else if self.byte_size == 8 {
            Ok(DataBits::Eight)
        } else {
            Err(Error::of_kind(ErrorKind::Unknown))
        }
    }

    pub open spec fn parity(self) -> Result<Parity, Error> {
        if self.parity == ODDPARITY {
            Ok(Parity::Odd)
        } else if self.parity == EVENPARITY {
            Ok(Parity::Even)
        } else if self.parity == NOPARITY {
            Ok(Parity::Off)
        } else {
            Err(Error::of_kind(ErrorKind::Unknown))
        }
    }

    pub open spec fn stop_bits(self) -> Result<StopBits, Error> {
        if self.stop_bits == TWOSTOPBITS {
            Ok(StopBits::Two)
        } else if self.stop_bits == ONESTOPBIT {
            Ok(StopBits::One)
        } else {
            Err(Error::of_kind(ErrorKind::Unknown))
        }
    }

    /// Hardware as soon as either hardware mechanism is on, else software
    /// as soon as either XON/XOFF direction is on, else none. Which of the
    /// two directions was on is not reported.
    pub open spec fn flow_control(self) -> FlowControl {
        if self.outx_cts_flow || self.rts_control != RtsControl::Disable {
            FlowControl::Hardware
        } else if self.out_x || self.in_x {
            FlowControl::Software
        } else {
            FlowControl::Off
        }
    }

    /// A record with every field zero.
    pub fn new() -> (dcb: Dcb)
        ensures
            dcb == Dcb::zeroed(),
    {
        Dcb {
            baud_rate: 0,
            binary: false,
            parity_check: false,
            outx_cts_flow: false,
            outx_dsr_flow: false,
            dtr_control: DtrControl::Disable,
            dsr_sensitivity: false,
            tx_continue_on_xoff: false,
            out_x: false,
            in_x: false,
            replace_errors: false,
            discard_nulls: false,
            rts_control: RtsControl::Disable,
            abort_on_error: false,
            reserved_flags: 0,
            reserved: 0,
            xon_lim: 0,
            xoff_lim: 0,
            byte_size: 0,
            parity: 0,
            stop_bits: 0,
            xon_char: 0,
            xoff_char: 0,
            error_char: 0,
            eof_char: 0,
            evt_char: 0,
            reserved1: 0,
        }
    }

    /// The complete record for opening a port as `builder` describes it.
    pub fn from_builder(builder: &SerialPortBuilder) -> (dcb: Dcb)
        ensures
            dcb == Dcb::of_builder(*builder),
    {
        let mut dcb = Dcb::new();
        init(&mut dcb);
        set_baud_rate(&mut dcb, builder.baud_rate);
        set_data_bits(&mut dcb, builder.data_bits);
        set_parity(&mut dcb, builder.parity);
        set_stop_bits(&mut dcb, builder.stop_bits);
        set_flow_control(&mut dcb, builder.flow_control);
        dcb
    }
}

/// Sets every field that the portable configuration does not reach.
pub fn init(dcb: &mut Dcb)
    ensures
        *final(dcb) == old(dcb).initialised(),
{
    dcb.xon_char = 17;
    dcb.xoff_char = 19;
    dcb.error_char = 0;
    dcb.eof_char = 26;
    dcb.binary = true;
    dcb.outx_dsr_flow = false;
    dcb.dtr_control = DtrControl::Disable;
    dcb.dsr_sensitivity = false;
    dcb.replace_errors = false;
    dcb.discard_nulls = false;
    dcb.abort_on_error = false;
}

pub fn set_baud_rate(dcb: &mut Dcb, baud_rate: u32)
    ensures
        *final(dcb) == old(dcb).with_baud_rate(baud_rate),
{
    dcb.baud_rate = baud_rate;
}

pub fn set_data_bits(dcb: &mut Dcb, data_bits: DataBits)
    ensures
        *final(dcb) == old(dcb).with_data_bits(data_bits),
{
    dcb.byte_size = match data_bits {
        DataBits::Five => 5,
        DataBits::Six => 6,
        DataBits::Seven => 7,
        DataBits::Eight => 8,
    };
}

pub fn set_parity(dcb: &mut Dcb, parity: Parity)
    ensures
        *final(dcb) == old(dcb).with_parity(parity),
{
    dcb.parity = match parity {
        Parity::Off => NOPARITY,
        Parity::Odd => ODDPARITY,
        Parity::Even => EVENPARITY,
    };
    dcb.parity_check = match parity {
        Parity::Off => false,
        _ => true,
    };
}

pub fn set_stop_bits(dcb: &mut Dcb, stop_bits: StopBits)
    ensures
        *final(dcb) == old(dcb).with_stop_bits(stop_bits),
{
    dcb.stop_bits = match stop_bits {
        StopBits::One => ONESTOPBIT,
        StopBits::Two => TWOSTOPBITS,
    };
}

pub fn set_flow_control(dcb: &mut Dcb, flow_control: FlowControl)
    ensures
        *final(dcb) == old(dcb).with_flow_control(flow_control),
{
    match flow_control {
        FlowControl::Off => {
            dcb.outx_cts_flow = false;
            dcb.rts_control = RtsControl::Disable;
            dcb.out_x = false;
            dcb.in_x = false;
        },
        FlowControl::Software => {
            dcb.outx_cts_flow = false;
            dcb.rts_control = RtsControl::Disable;
            dcb.out_x = true;
            dcb.in_x = true;
        },
        FlowControl::Hardware => {
            dcb.outx_cts_flow = true;
            dcb.rts_control = RtsControl::Handshake;
            dcb.out_x = false;
            dcb.in_x = false;
        },
    }
}

/// The baud rate that the record holds.
pub fn baud_rate(dcb: &Dcb) -> (baud_rate: u32)
    ensures
        baud_rate == dcb.baud_rate,
{
    dcb.baud_rate
}

/// The data bits that the record holds, or `Unknown` for a byte size other
/// than 5, 6, 7 or 8.
pub fn data_bits(dcb: &Dcb) -> (result: Result<DataBits, Error>)
    ensures
        result == dcb.data_bits(),
{
    match dcb.byte_size {
        5 => Ok(DataBits::Five),
        6 => Ok(DataBits::Six),
        7 => Ok(DataBits::Seven),
        8 => Ok(DataBits::Eight),
        _ => Err(Error::new(ErrorKind::Unknown)),
    }
}

/// The parity mode that the record holds, or `Unknown` for mark and space
/// parity and for any code beyond them.
pub fn parity(dcb: &Dcb) -> (result: Result<Parity, Error>)
    ensures
        result == dcb.parity(),
{
    if dcb.parity == ODDPARITY {
        Ok(Parity::Odd)
    } else if dcb.parity == EVENPARITY {
        Ok(Parity::Even)
    } else if dcb.parity == NOPARITY {
        Ok(Parity::Off)
    } else {
        Err(Error::new(ErrorKind::Unknown))
    }
}

/// The stop bits that the record holds, or `Unknown` for one and a half
/// stop bits and for any code beyond them.
pub fn stop_bits(dcb: &Dcb) -> (result: Result<StopBits, Error>)
    ensures
        result == dcb.stop_bits(),
{
    if dcb.stop_bits == TWOSTOPBITS {
        Ok(StopBits::Two)
    } else if dcb.stop_bits == ONESTOPBIT {
        Ok(StopBits::One)
    } else {
        Err(Error::new(ErrorKind::Unknown))
    }
}

/// The flow control that the record amounts to.
pub fn flow_control(dcb: &Dcb) -> (flow_control: FlowControl)
    ensures
        flow_control == dcb.flow_control(),
{
    let rts_on = match dcb.rts_control {
        RtsControl::Disable => false,
        _ => true,
    };
    if dcb.outx_cts_flow || rts_on {
        FlowControl::Hardware
    } else if dcb.out_x || dcb.in_x {
        FlowControl::Software
    } else {
        FlowControl::Off
    }
}

/// Writing a baud rate, a number of data bits, a parity mode or a number of
/// stop bits into any record and reading the setting back gives the value
/// written.
pub proof fn lemma_setting_round_trip(
    dcb: Dcb,
    baud_rate: u32,
    data_bits: DataBits,
    parity: Parity,
    stop_bits: StopBits,
)
    ensures
        dcb.with_baud_rate(baud_rate).baud_rate == baud_rate,
        dcb.with_data_bits(data_bits).data_bits() == Ok::<DataBits, Error>(data_bits),
        dcb.with_parity(parity).parity() == Ok::<Parity, Error>(parity),
        dcb.with_stop_bits(stop_bits).stop_bits() == Ok::<StopBits, Error>(stop_bits),
{
}

/// Writing a flow control mode into any record and reading it back gives
/// the mode written. Hardware reads back as hardware although the record
/// then holds two separate mechanisms.
pub proof fn lemma_flow_control_round_trip(dcb: Dcb, flow_control: FlowControl)
    ensures
        dcb.with_flow_control(flow_control).flow_control() == flow_control,
        dcb.with_flow_control(FlowControl::Hardware).outx_cts_flow,
        dcb.with_flow_control(FlowControl::Hardware).rts_control == RtsControl::Handshake,
{
}

/// Reading flow control loses the direction: a record with only one of the
/// hardware mechanisms on, or only one XON/XOFF direction, reads as the
/// full mode.
pub proof fn lemma_flow_control_read_is_lossy(dcb: Dcb)
    ensures
        dcb.outx_cts_flow ==> dcb.flow_control() == FlowControl::Hardware,
        dcb.rts_control != RtsControl::Disable ==> dcb.flow_control() == FlowControl::Hardware,
        !dcb.outx_cts_flow && dcb.rts_control == RtsControl::Disable && (dcb.out_x || dcb.in_x)
            ==> dcb.flow_control() == FlowControl::Software,
        !dcb.outx_cts_flow && dcb.rts_control == RtsControl::Disable && !dcb.out_x && !dcb.in_x
            ==> dcb.flow_control() == FlowControl::Off,
{
}

/// The settings are independent: writing one of them leaves what the
/// others read as unchanged.
pub proof fn lemma_settings_independent(
    dcb: Dcb,
    baud_rate: u32,
    data_bits: DataBits,
    parity: Parity,
    stop_bits: StopBits,
    flow_control: FlowControl,
)
    ensures
        ({
            let d = dcb.with_baud_rate(baud_rate);
            d.data_bits() == dcb.data_bits() && d.parity() == dcb.parity() && d.stop_bits()
                == dcb.stop_bits() && d.flow_control() == dcb.flow_control()
        }),
        ({
            let d = dcb.with_data_bits(data_bits);
            d.baud_rate == dcb.baud_rate && d.parity() == dcb.parity() && d.stop_bits()
                == dcb.stop_bits() && d.flow_control() == dcb.flow_control()
        }),
        ({
            let d = dcb.with_parity(parity);
            d.baud_rate == dcb.baud_rate && d.data_bits() == dcb.data_bits() && d.stop_bits()
                == dcb.stop_bits() && d.flow_control() == dcb.flow_control()
        }),
        ({
            let d = dcb.with_stop_bits(stop_bits);
            d.baud_rate == dcb.baud_rate && d.data_bits() == dcb.data_bits() && d.parity()
                == dcb.parity() && d.flow_control() == dcb.flow_control()
        }),
        ({
            let d = dcb.with_flow_control(flow_control);
            d.baud_rate == dcb.baud_rate && d.data_bits() == dcb.data_bits() && d.parity()
                == dcb.parity() && d.stop_bits() == dcb.stop_bits()
        }),
{
}

/// The record that a port is opened with reads back as the configuration
/// it was made from.
pub proof fn lemma_builder_round_trip(builder: SerialPortBuilder)
    ensures
        Dcb::of_builder(builder).baud_rate == builder.baud_rate,
        Dcb::of_builder(builder).data_bits() == Ok::<DataBits, Error>(builder.data_bits),
        Dcb::of_builder(builder).parity() == Ok::<Parity, Error>(builder.parity),
        Dcb::of_builder(builder).stop_bits() == Ok::<StopBits, Error>(builder.stop_bits),
        Dcb::of_builder(builder).flow_control() == builder.flow_control,
        Dcb::of_builder(builder).binary,
{
}

} // verus!
