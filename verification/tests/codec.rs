use comport::config::{DataBits, FlowControl, Parity, SerialPortBuilder, StopBits};
use comport::dcb::{self, Dcb, DtrControl, RtsControl};
use comport::error::{Error, ErrorKind};
use comport::time::Duration;

const UNKNOWN: Error = Error { kind: ErrorKind::Unknown, code: 0 };

fn odd_record() -> Dcb {
    Dcb {
        baud_rate: 1200,
        binary: false,
        parity_check: true,
        outx_cts_flow: false,
        outx_dsr_flow: true,
        dtr_control: DtrControl::Handshake,
        dsr_sensitivity: true,
        tx_continue_on_xoff: true,
        out_x: false,
        in_x: false,
        replace_errors: true,
        discard_nulls: true,
        rts_control: RtsControl::Disable,
        abort_on_error: true,
        reserved_flags: 0x1_2345,
        reserved: 7,
        xon_lim: 2048,
        xoff_lim: 512,
        byte_size: 7,
        parity: 2,
        stop_bits: 0,
        xon_char: 1,
        xoff_char: 2,
        error_char: 3,
        eof_char: 4,
        evt_char: 5,
        reserved1: 9,
    }
}

#[test]
fn baud_rate_round_trip() {
    for v in [0u32, 1, 300, 9600, 115_200, 3_000_000, u32::MAX] {
        let mut d = odd_record();
        dcb::set_baud_rate(&mut d, v);
        assert_eq!(dcb::baud_rate(&d), v);
        assert_eq!(d, Dcb { baud_rate: v, ..odd_record() });
    }
}

#[test]
fn data_bits_round_trip() {
    let cases = [(DataBits::Five, 5u8), (DataBits::Six, 6), (DataBits::Seven, 7), (DataBits::Eight, 8)];
    for (v, native) in cases {
        let mut d = odd_record();
        dcb::set_data_bits(&mut d, v);
        assert_eq!(d, Dcb { byte_size: native, ..odd_record() });
        assert_eq!(dcb::data_bits(&d), Ok(v));
    }
}

#[test]
fn parity_round_trip() {
    let cases = [(Parity::Off, 0u8, false), (Parity::Odd, 1, true), (Parity::Even, 2, true)];
    for (v, native, check) in cases {
        let mut d = odd_record();
        dcb::set_parity(&mut d, v);
        assert_eq!(d, Dcb { parity: native, parity_check: check, ..odd_record() });
        assert_eq!(dcb::parity(&d), Ok(v));
    }
}

#[test]
fn stop_bits_round_trip() {
    let cases = [(StopBits::One, 0u8), (StopBits::Two, 2)];
    for (v, native) in cases {
        let mut d = odd_record();
        dcb::set_stop_bits(&mut d, v);
        assert_eq!(d, Dcb { stop_bits: native, ..odd_record() });
        assert_eq!(dcb::stop_bits(&d), Ok(v));
    }
}

#[test]
fn flow_control_round_trip() {
    for v in [FlowControl::Off, FlowControl::Software, FlowControl::Hardware] {
        let mut d = odd_record();
        dcb::set_flow_control(&mut d, v);
        assert_eq!(dcb::flow_control(&d), v);
    }
}

#[test]
fn hardware_flow_control_sets_both_mechanisms() {
    let mut d = odd_record();
    dcb::set_flow_control(&mut d, FlowControl::Hardware);
    assert_eq!(
        d,
        Dcb {
            outx_cts_flow: true,
            rts_control: RtsControl::Handshake,
            out_x: false,
            in_x: false,
            ..odd_record()
        }
    );
}

#[test]
fn software_flow_control_sets_both_directions() {
    let mut d = odd_record();
    dcb::set_flow_control(&mut d, FlowControl::Software);
    assert_eq!(
        d,
        Dcb {
            outx_cts_flow: false,
            rts_control: RtsControl::Disable,
            out_x: true,
            in_x: true,
            ..odd_record()
        }
    );
    dcb::set_flow_control(&mut d, FlowControl::Off);
    assert_eq!(
        d,
        Dcb {
            outx_cts_flow: false,
            rts_control: RtsControl::Disable,
            out_x: false,
            in_x: false,
            ..odd_record()
        }
    );
}

#[test]
fn flow_control_read_is_lossy() {
    let base = odd_record();
    assert_eq!(dcb::flow_control(&base), FlowControl::Off);
    assert_eq!(dcb::flow_control(&Dcb { outx_cts_flow: true, ..base }), FlowControl::Hardware);
    for rts in [RtsControl::Enable, RtsControl::Handshake, RtsControl::Toggle] {
        assert_eq!(dcb::flow_control(&Dcb { rts_control: rts, ..base }), FlowControl::Hardware);
    }
    assert_eq!(
        dcb::flow_control(&Dcb { rts_control: RtsControl::Enable, out_x: true, in_x: true, ..base }),
        FlowControl::Hardware
    );
    assert_eq!(dcb::flow_control(&Dcb { out_x: true, ..base }), FlowControl::Software);
    assert_eq!(dcb::flow_control(&Dcb { in_x: true, ..base }), FlowControl::Software);
}

#[test]
fn unknown_native_values_are_reported() {
    let base = odd_record();
    for size in [0u8, 4, 9, 16, 255] {
        assert_eq!(dcb::data_bits(&Dcb { byte_size: size, ..base }), Err(UNKNOWN));
    }
    for code in [3u8, 4, 5, 255] {
        assert_eq!(dcb::parity(&Dcb { parity: code, ..base }), Err(UNKNOWN));
    }
    for code in [1u8, 3, 255] {
        assert_eq!(dcb::stop_bits(&Dcb { stop_bits: code, ..base }), Err(UNKNOWN));
    }
}

#[test]
fn init_sets_the_fixed_fields_only() {
    let mut d = odd_record();
    dcb::init(&mut d);
    assert_eq!(
        d,
        Dcb {
            xon_char: 17,
            xoff_char: 19,
            error_char: 0,
            eof_char: 26,
            binary: true,
            outx_dsr_flow: false,
            dtr_control: DtrControl::Disable,
            dsr_sensitivity: false,
            replace_errors: false,
            discard_nulls: false,
            abort_on_error: false,
            ..odd_record()
        }
    );
}

#[test]
fn record_for_opening() {
    let builder = SerialPortBuilder {
        path: String::from("COM7"),
        baud_rate: 57_600,
        data_bits: DataBits::Seven,
        flow_control: FlowControl::Hardware,
        parity: Parity::Even,
        stop_bits: StopBits::Two,
        timeout: Duration::from_millis(250),
    };
    let d = Dcb::from_builder(&builder);
    assert_eq!(
        d,
        Dcb {
            baud_rate: 57_600,
            binary: true,
            parity_check: true,
            outx_cts_flow: true,
            outx_dsr_flow: false,
            dtr_control: DtrControl::Disable,
            dsr_sensitivity: false,
            tx_continue_on_xoff: false,
            out_x: false,
            in_x: false,
            replace_errors: false,
            discard_nulls: false,
            rts_control: RtsControl::Handshake,
            abort_on_error: false,
            reserved_flags: 0,
            reserved: 0,
            xon_lim: 0,
            xoff_lim: 0,
            byte_size: 7,
            parity: 2,
            stop_bits: 2,
            xon_char: 17,
            xoff_char: 19,
            error_char: 0,
            eof_char: 26,
            evt_char: 0,
            reserved1: 0,
        }
    );
    assert_eq!(dcb::baud_rate(&d), 57_600);
    assert_eq!(dcb::data_bits(&d), Ok(DataBits::Seven));
    assert_eq!(dcb::parity(&d), Ok(Parity::Even));
    assert_eq!(dcb::stop_bits(&d), Ok(StopBits::Two));
    assert_eq!(dcb::flow_control(&d), FlowControl::Hardware);
}

#[test]
fn new_builder_defaults() {
    let b = SerialPortBuilder::new(String::from("COM1"), 9600);
    assert_eq!(b.path, "COM1");
    assert_eq!(b.baud_rate, 9600);
    assert_eq!(b.data_bits, DataBits::Eight);
    assert_eq!(b.flow_control, FlowControl::Off);
    assert_eq!(b.parity, Parity::Off);
    assert_eq!(b.stop_bits, StopBits::One);
    assert!(b.timeout.is_zero());
    assert_eq!(Dcb::new().baud_rate, 0);
    assert!(!Dcb::new().binary);
}

#[test]
fn settings_are_independent() {
    let mut d = odd_record();
    dcb::set_parity(&mut d, Parity::Odd);
    dcb::set_flow_control(&mut d, FlowControl::Software);
    dcb::set_stop_bits(&mut d, StopBits::Two);
    dcb::set_data_bits(&mut d, DataBits::Five);
    dcb::set_baud_rate(&mut d, 19_200);
    assert_eq!(dcb::parity(&d), Ok(Parity::Odd));
    assert_eq!(dcb::flow_control(&d), FlowControl::Software);
    assert_eq!(dcb::stop_bits(&d), Ok(StopBits::Two));
    assert_eq!(dcb::data_bits(&d), Ok(DataBits::Five));
    assert_eq!(dcb::baud_rate(&d), 19_200);
    assert_eq!(d.xon_lim, 2048);
    assert_eq!(d.reserved_flags, 0x1_2345);
    assert_eq!(d.dtr_control, DtrControl::Handshake);
}
