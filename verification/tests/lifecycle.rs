use comport::com::{COMPort, Cloning, Opening};
use comport::config::{DataBits, FlowControl, Parity, SerialPortBuilder, StopBits};
use comport::dcb::Dcb;
use comport::error::{Error, ErrorKind};
use comport::os::{Call, Reply, INVALID_HANDLE_VALUE, NULL_HANDLE};
use comport::time::Duration;
use comport::timeouts::CommTimeouts;

fn builder() -> SerialPortBuilder {
    SerialPortBuilder {
        path: String::from("COM3"),
        baud_rate: 115_200,
        data_bits: DataBits::Eight,
        flow_control: FlowControl::Software,
        parity: Parity::Odd,
        stop_bits: StopBits::One,
        timeout: Duration::from_millis(1500),
    }
}

fn ok(value: usize) -> Reply {
    Reply { value, last_error: 0 }
}

fn failed(value: usize, last_error: u32) -> Reply {
    Reply { value, last_error }
}

/// Drives an opening with the replies given and returns the final state,
/// every call made, and the balance of a handle counter: handles that the
/// replies handed out, less the handles that were closed.
fn drive_open(replies: &[Reply]) -> (Opening, Vec<Call>, i64) {
    let (mut state, first) = COMPort::open(&builder());
    let mut calls = vec![first];
    let mut counter: i64 = 0;
    for reply in replies {
        let awaited = calls.last().unwrap().clone();
        match awaited {
            Call::CreateFile { .. } if reply.value != INVALID_HANDLE_VALUE => counter += 1,
            Call::CreateEvent { .. } if reply.value != NULL_HANDLE => counter += 1,
            _ => {}
        }
        let (next, call) = state.step(*reply);
        state = next;
        match call {
            Some(call) => {
                if matches!(call, Call::CloseHandle { .. }) {
                    counter -= 1;
                }
                calls.push(call);
            }
            None => break,
        }
    }
    (state, calls, counter)
}

#[test]
fn open_asks_for_the_device_first() {
    let (state, call) = COMPort::open(&builder());
    assert!(matches!(state, Opening::Handle { .. }));
    let mut path: Vec<u16> = "\\\\.\\COM3".encode_utf16().collect();
    path.push(0);
    assert_eq!(
        call,
        Call::CreateFile {
            path,
            desired_access: 0xC000_0000,
            share_mode: 0,
            creation_disposition: 3,
            flags_and_attributes: 0x4000_0080,
        }
    );
}

#[test]
fn open_succeeds_through_four_calls() {
    let (state, calls, counter) = drive_open(&[ok(0x10), ok(0x20), ok(1), ok(1)]);
    assert_eq!(calls.len(), 4);
    assert_eq!(calls[1], Call::CreateEvent { manual_reset: false, initial_state: false });
    assert_eq!(calls[2], Call::SetCommState { handle: 0x10, dcb: Dcb::from_builder(&builder()) });
    assert_eq!(
        calls[3],
        Call::SetCommTimeouts {
            handle: 0x10,
            timeouts: CommTimeouts {
                read_interval_timeout: u32::MAX,
                read_total_timeout_multiplier: 0,
                read_total_timeout_constant: 1500,
                write_total_timeout_multiplier: 0,
                write_total_timeout_constant: 1500,
            },
        }
    );
    assert_eq!(counter, 2);
    match state.finish() {
        Ok(Ok(port)) => {
            assert_eq!(port.handle, 0x10);
            assert_eq!(port.event, 0x20);
            assert_eq!(port.timeout, Duration::from_millis(1500));
            assert_eq!(port.port_name.as_deref(), Some("COM3"));
            assert_eq!(port.name().as_deref(), Some("COM3"));
            assert_eq!(port.timeout(), Duration::from_millis(1500));
        }
        _ => panic!("the port should be open"),
    }
}

#[test]
fn open_of_missing_device_is_no_device() {
    for code in [2u32, 3, 5] {
        let (state, calls, counter) = drive_open(&[failed(INVALID_HANDLE_VALUE, code)]);
        assert_eq!(calls.len(), 1);
        assert_eq!(counter, 0);
        match state.finish() {
            Ok(Err(e)) => assert_eq!(e, Error { kind: ErrorKind::NoDevice, code }),
            _ => panic!("opening should have failed"),
        }
    }
}

#[test]
fn open_of_bad_name_is_invalid_input() {
    let (state, calls, counter) = drive_open(&[failed(INVALID_HANDLE_VALUE, 123)]);
    assert_eq!(calls.len(), 1);
    assert_eq!(counter, 0);
    assert!(matches!(
        state.finish(),
        Ok(Err(Error { kind: ErrorKind::InvalidInput, code: 123 }))
    ));
}

#[test]
fn open_with_other_failure_is_io() {
    let (state, _, counter) = drive_open(&[failed(INVALID_HANDLE_VALUE, 31)]);
    assert_eq!(counter, 0);
    assert!(matches!(state.finish(), Ok(Err(Error { kind: ErrorKind::Io, code: 31 }))));
}

#[test]
fn open_without_event_closes_the_handle() {
    let (state, calls, counter) = drive_open(&[ok(0x10), failed(NULL_HANDLE, 8), ok(1)]);
    assert_eq!(calls.len(), 3);
    assert_eq!(calls[2], Call::CloseHandle { handle: 0x10 });
    assert_eq!(counter, 0);
    assert!(matches!(state.finish(), Ok(Err(Error { kind: ErrorKind::Io, code: 8 }))));
}

#[test]
fn open_with_refused_configuration_closes_both() {
    let (state, calls, counter) = drive_open(&[ok(0x10), ok(0x20), failed(0, 87), ok(1), ok(1)]);
    assert_eq!(calls.len(), 5);
    assert_eq!(calls[3], Call::CloseHandle { handle: 0x10 });
    assert_eq!(calls[4], Call::CloseHandle { handle: 0x20 });
    assert_eq!(counter, 0);
    assert!(matches!(
        state.finish(),
        Ok(Err(Error { kind: ErrorKind::InvalidInput, code: 87 }))
    ));
}

#[test]
fn open_with_refused_timeout_closes_both() {
    let (state, calls, counter) =
        drive_open(&[ok(0x10), ok(0x20), ok(1), failed(0, 6), ok(1), ok(1)]);
    assert_eq!(calls.len(), 6);
    assert_eq!(calls[4], Call::CloseHandle { handle: 0x10 });
    assert_eq!(calls[5], Call::CloseHandle { handle: 0x20 });
    assert_eq!(counter, 0);
    assert!(matches!(state.finish(), Ok(Err(Error { kind: ErrorKind::Io, code: 6 }))));
}

#[test]
fn open_closes_the_event_even_if_closing_the_handle_fails() {
    let (state, calls, counter) =
        drive_open(&[ok(0x10), ok(0x20), failed(0, 87), failed(0, 6), failed(0, 6)]);
    assert_eq!(calls[3], Call::CloseHandle { handle: 0x10 });
    assert_eq!(calls[4], Call::CloseHandle { handle: 0x20 });
    assert_eq!(counter, 0);
    assert!(matches!(
        state.finish(),
        Ok(Err(Error { kind: ErrorKind::InvalidInput, code: 87 }))
    ));
}

#[test]
fn open_never_leaks_for_any_reply_pattern() {
    let handle_replies = [ok(0x10), failed(INVALID_HANDLE_VALUE, 2)];
    let event_replies = [ok(0x20), failed(NULL_HANDLE, 8)];
    let status_replies = [ok(1), failed(0, 87)];
    for h in handle_replies {
        for e in event_replies {
            for c in status_replies {
                for t in status_replies {
                    let (state, _, counter) = drive_open(&[h, e, c, t, ok(1), ok(1), ok(1)]);
                    match state.finish() {
                        Ok(Ok(_)) => assert_eq!(counter, 2),
                        Ok(Err(_)) => assert_eq!(counter, 0),
                        Err(_) => panic!("opening should have ended"),
                    }
                }
            }
        }
    }
}

#[test]
fn unfinished_opening_is_handed_back() {
    let (state, _) = COMPort::open(&builder());
    let (state, _) = state.step(ok(0x10));
    match state.finish() {
        Err(Opening::Event { handle, .. }) => assert_eq!(handle, 0x10),
        _ => panic!("opening should still be under way"),
    }
}

#[test]
fn final_states_stay() {
    let (state, _, _) = drive_open(&[failed(INVALID_HANDLE_VALUE, 2)]);
    let (state, call) = state.step(ok(0x99));
    assert!(call.is_none());
    assert!(matches!(state, Opening::Failed(Error { kind: ErrorKind::NoDevice, code: 2 })));
}

#[test]
fn port_from_raw_handle() {
    let port = COMPort::open_from_raw_handle(0x44, 0x55);
    assert_eq!(port.handle, 0x44);
    assert_eq!(port.event, 0x55);
    assert_eq!(port.timeout(), Duration::from_millis(100));
    assert_eq!(port.name(), None);
}

#[test]
fn close_releases_handle_and_event() {
    let port = COMPort::open_from_raw_handle(0x44, 0x55);
    assert_eq!(
        port.close(),
        (Call::CloseHandle { handle: 0x44 }, Call::CloseHandle { handle: 0x55 })
    );
}

fn opened() -> COMPort {
    COMPort {
        handle: 0x10,
        event: 0x20,
        timeout: Duration::from_millis(750),
        port_name: Some(String::from("COM3")),
    }
}

#[test]
fn clone_succeeds_through_two_calls() {
    let port = opened();
    let (state, call) = port.try_clone_native();
    assert_eq!(call, Call::CreateEvent { manual_reset: false, initial_state: false });
    let (state, call) = state.step(ok(0x30));
    assert_eq!(
        call,
        Some(Call::DuplicateHandle { source: 0x10, desired_access: 0, inherit: true, options: 2 })
    );
    let (state, call) = state.step(ok(0x40));
    assert_eq!(call, None);
    match state.finish() {
        Ok(Ok(second)) => {
            assert_eq!(second.handle, 0x40);
            assert_eq!(second.event, 0x30);
            assert_eq!(second.timeout(), Duration::from_millis(750));
            assert_eq!(second.name().as_deref(), Some("COM3"));
            assert_eq!(
                second.close(),
                (Call::CloseHandle { handle: 0x40 }, Call::CloseHandle { handle: 0x30 })
            );
        }
        _ => panic!("the port should have been duplicated"),
    }
    assert_eq!(
        port.close(),
        (Call::CloseHandle { handle: 0x10 }, Call::CloseHandle { handle: 0x20 })
    );
}

#[test]
fn clone_keeps_its_own_cached_timeout() {
    let mut port = opened();
    let (state, _) = port.try_clone_native();
    let (state, _) = state.step(ok(0x30));
    let (state, _) = state.step(ok(0x40));
    let second = match state.finish() {
        Ok(Ok(second)) => second,
        _ => panic!("the port should have been duplicated"),
    };
    assert_eq!(port.set_timeout_reply(Duration::from_millis(5), ok(1)), Ok(()));
    assert_eq!(port.timeout(), Duration::from_millis(5));
    assert_eq!(second.timeout(), Duration::from_millis(750));
}

#[test]
fn clone_without_event_fails_at_once() {
    let port = opened();
    let (state, _) = port.try_clone_native();
    let (state, call) = state.step(failed(NULL_HANDLE, 8));
    assert_eq!(call, None);
    assert!(matches!(state.finish(), Ok(Err(Error { kind: ErrorKind::Io, code: 8 }))));
}

#[test]
fn clone_without_handle_closes_the_new_event() {
    let port = opened();
    let (state, _) = port.try_clone_native();
    let (state, _) = state.step(ok(0x30));
    let (state, call) = state.step(failed(INVALID_HANDLE_VALUE, 5));
    assert_eq!(call, Some(Call::CloseHandle { handle: 0x30 }));
    assert!(matches!(state, Cloning::Releasing { .. }));
    let (state, call) = state.step(ok(1));
    assert_eq!(call, None);
    assert!(matches!(state.finish(), Ok(Err(Error { kind: ErrorKind::NoDevice, code: 5 }))));
}

#[test]
fn set_timeout_pushes_and_caches() {
    let mut port = opened();
    let t = Duration::from_millis(20);
    assert_eq!(
        port.set_timeout(t),
        Call::SetCommTimeouts { handle: 0x10, timeouts: CommTimeouts::for_duration(t) }
    );
    assert_eq!(port.timeout(), Duration::from_millis(750));
    assert_eq!(port.set_timeout_reply(t, ok(1)), Ok(()));
    assert_eq!(port.timeout(), t);
}

#[test]
fn refused_timeout_is_not_cached() {
    let mut port = opened();
    let t = Duration::from_millis(20);
    assert_eq!(
        port.set_timeout_reply(t, failed(0, 87)),
        Err(Error { kind: ErrorKind::InvalidInput, code: 87 })
    );
    assert_eq!(port.timeout(), Duration::from_millis(750));
    assert_eq!(port.handle, 0x10);
    assert_eq!(port.event, 0x20);
}

#[test]
fn zero_timeout_is_pushed_as_disabled() {
    let port = opened();
    assert_eq!(
        port.set_timeout(Duration::from_millis(0)),
        Call::SetCommTimeouts {
            handle: 0x10,
            timeouts: CommTimeouts {
                read_interval_timeout: 0,
                read_total_timeout_multiplier: 0,
                read_total_timeout_constant: 0,
                write_total_timeout_multiplier: 0,
                write_total_timeout_constant: 0,
            },
        }
    );
}
