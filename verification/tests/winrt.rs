use comport::config::{ClearBuffer, DataBits, FlowControl, Parity, SerialPortBuilder, StopBits};
use comport::error::{Error, ErrorKind};
use comport::time::Duration;
use comport::winrt::{available_ports, COMPort};

const TIMED_OUT: Error = Error { kind: ErrorKind::TimedOut, code: 0 };
const UNKNOWN: Error = Error { kind: ErrorKind::Unknown, code: 0 };

fn idle() -> COMPort {
    COMPort { timeout: Duration::from_millis(40), port_name: Some(String::from("COM9")) }
}

#[test]
fn no_ports_are_listed() {
    match available_ports() {
        Ok(ports) => assert!(ports.is_empty()),
        Err(_) => panic!("listing should not fail"),
    }
}

#[test]
fn sandboxed_open_always_fails() {
    let builder = SerialPortBuilder::new(String::from("COM1"), 9600);
    assert!(matches!(
        COMPort::open(&builder, 2),
        Err(Error { kind: ErrorKind::NoDevice, code: 2 })
    ));
    assert!(matches!(COMPort::open(&builder, 0), Err(Error { kind: ErrorKind::Io, code: 0 })));
    assert!(matches!(idle().try_clone(50), Err(Error { kind: ErrorKind::Io, code: 50 })));
}

#[test]
fn sandboxed_transfers_time_out() {
    let mut p = idle();
    assert_eq!(p.read(16), Err(TIMED_OUT));
    assert_eq!(p.read(0), Err(TIMED_OUT));
    assert_eq!(p.write(16), Err(TIMED_OUT));
    assert_eq!(p.flush(), Err(TIMED_OUT));
}

#[test]
fn sandboxed_settings_are_dropped() {
    let mut p = idle();
    assert_eq!(p.set_timeout(Duration::from_millis(1)), Ok(()));
    assert_eq!(p.timeout(), Duration::from_millis(40));
    assert_eq!(p.name().as_deref(), Some("COM9"));
    assert_eq!(p.set_baud_rate(300), Ok(()));
    assert_eq!(p.set_data_bits(DataBits::Five), Ok(()));
    assert_eq!(p.set_parity(Parity::Odd), Ok(()));
    assert_eq!(p.set_stop_bits(StopBits::Two), Ok(()));
    assert_eq!(p.set_flow_control(FlowControl::Hardware), Ok(()));
    assert_eq!(p.baud_rate(), Ok(0));
    assert_eq!(p.data_bits(), Err(UNKNOWN));
    assert_eq!(p.parity(), Err(UNKNOWN));
    assert_eq!(p.stop_bits(), Err(UNKNOWN));
    assert_eq!(p.flow_control(), Err(UNKNOWN));
}

#[test]
fn sandboxed_lines_and_queues() {
    let mut p = idle();
    assert_eq!(p.write_request_to_send(true), Ok(()));
    assert_eq!(p.write_data_terminal_ready(false), Ok(()));
    assert_eq!(p.read_clear_to_send(), Ok(true));
    assert_eq!(p.read_data_set_ready(), Ok(true));
    assert_eq!(p.read_ring_indicator(), Ok(true));
    assert_eq!(p.read_carrier_detect(), Ok(true));
    assert_eq!(p.bytes_to_read(), Ok(0));
    assert_eq!(p.bytes_to_write(), Ok(0));
    assert_eq!(p.clear(ClearBuffer::All), Ok(()));
}
