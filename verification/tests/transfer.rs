use comport::com::COMPort;
use comport::error::{Error, ErrorKind};
use comport::os::{Call, Reply};
use comport::transfer::{Direction, Transfer};

const PENDING: Reply = Reply { value: 0, last_error: 997 };
const DONE: Reply = Reply { value: 1, last_error: 0 };
const TIMED_OUT: Error = Error { kind: ErrorKind::TimedOut, code: 0 };

fn port() -> COMPort {
    COMPort::open_from_raw_handle(0x10, 0x20)
}

#[test]
fn read_submits_for_the_buffer_length() {
    let (state, call) = port().read(64);
    assert_eq!(state, Transfer::Submitted { direction: Direction::Read, handle: 0x10, requested: 64 });
    assert_eq!(call, Call::ReadFile { handle: 0x10, event: 0x20, len: 64 });
}

#[test]
fn write_submits_for_the_buffer_length() {
    let (state, call) = port().write(3);
    assert_eq!(state, Transfer::Submitted { direction: Direction::Write, handle: 0x10, requested: 3 });
    assert_eq!(call, Call::WriteFile { handle: 0x10, event: 0x20, len: 3 });
}

#[test]
fn transfer_length_is_cut_to_a_dword() {
    if usize::BITS > 32 {
        let len = (1u64 << 32) as usize + 5;
        assert_eq!(port().read(len).1, Call::ReadFile { handle: 0x10, event: 0x20, len: 5 });
        assert_eq!(port().write(len).1, Call::WriteFile { handle: 0x10, event: 0x20, len: 5 });
    }
    let max = u32::MAX as usize;
    assert_eq!(port().read(max).1, Call::ReadFile { handle: 0x10, event: 0x20, len: u32::MAX });
}

#[test]
fn immediate_completion_needs_no_wait() {
    for (start, n) in [(port().read(8).0, 5u32), (port().write(8).0, 8), (port().read(8).0, 0)] {
        let (state, call) = start.step(DONE, n);
        assert_eq!(call, None);
        assert_eq!(state, Transfer::Done(Ok(n as usize)));
        assert_eq!(state.finish(), Some(Ok(n as usize)));
    }
}

#[test]
fn pending_transfer_waits_for_completion() {
    for start in [port().read(8).0, port().write(8).0] {
        let (state, call) = start.step(PENDING, 0);
        assert_eq!(call, Some(Call::GetOverlappedResult { handle: 0x10, wait: true }));
        assert!(matches!(state, Transfer::Waiting { requested: 8, .. }));
        assert_eq!(state.finish(), None);
        let (state, call) = state.step(DONE, 6);
        assert_eq!(call, None);
        assert_eq!(state.finish(), Some(Ok(6)));
    }
}

#[test]
fn failed_submission_is_an_io_error() {
    for code in [5u32, 6, 121, 0] {
        let (state, call) = port().read(8).0.step(Reply { value: 0, last_error: code }, 0);
        assert_eq!(call, None);
        assert_eq!(state.finish(), Some(Err(Error { kind: ErrorKind::Io, code })));
        let (state, _) = port().write(8).0.step(Reply { value: 0, last_error: code }, 0);
        assert_eq!(state.finish(), Some(Err(Error { kind: ErrorKind::Io, code })));
    }
}

#[test]
fn only_true_counts_as_immediate_completion() {
    let (state, call) = port().read(8).0.step(Reply { value: 2, last_error: 997 }, 4);
    assert_eq!(call, Some(Call::GetOverlappedResult { handle: 0x10, wait: true }));
    assert!(matches!(state, Transfer::Waiting { .. }));
}

#[test]
fn read_of_zero_bytes_after_wait_times_out() {
    let (state, _) = port().read(8).0.step(PENDING, 0);
    let (state, call) = state.step(DONE, 0);
    assert_eq!(call, None);
    assert_eq!(state.finish(), Some(Err(TIMED_OUT)));
}

#[test]
fn write_of_zero_bytes_after_wait_times_out() {
    let (state, _) = port().write(8).0.step(PENDING, 0);
    let (state, _) = state.step(DONE, 0);
    assert_eq!(state.finish(), Some(Err(TIMED_OUT)));
}

#[test]
fn empty_buffer_never_times_out() {
    for start in [port().read(0).0, port().write(0).0] {
        assert_eq!(start.step(DONE, 0).0.finish(), Some(Ok(0)));
        let (state, _) = start.step(PENDING, 0);
        assert_eq!(state.step(DONE, 0).0.finish(), Some(Ok(0)));
        assert_eq!(state.step(Reply { value: 7, last_error: 3 }, 0).0.finish(), Some(Ok(0)));
    }
}

#[test]
fn failed_wait_surfaces_the_code() {
    let (reading, _) = port().read(8).0.step(PENDING, 0);
    let (writing, _) = port().write(8).0.step(PENDING, 0);
    for code in [5u32, 6, 995, 1167] {
        let reply = Reply { value: 0, last_error: code };
        assert_eq!(reading.step(reply, 3).0.finish(), Some(Err(Error { kind: ErrorKind::Io, code })));
        assert_eq!(writing.step(reply, 3).0.finish(), Some(Err(Error { kind: ErrorKind::Io, code })));
    }
}

#[test]
fn write_semaphore_timeout_is_timed_out() {
    let (writing, _) = port().write(8).0.step(PENDING, 0);
    let reply = Reply { value: 0, last_error: 121 };
    assert_eq!(
        writing.step(reply, 0).0.finish(),
        Some(Err(Error { kind: ErrorKind::TimedOut, code: 121 }))
    );
    let (reading, _) = port().read(8).0.step(PENDING, 0);
    assert_eq!(
        reading.step(reply, 0).0.finish(),
        Some(Err(Error { kind: ErrorKind::Io, code: 121 }))
    );
}

#[test]
fn finished_transfer_stays_finished() {
    let done = Transfer::Done(Ok(4));
    assert_eq!(done.step(PENDING, 9), (done, None));
    let failed = Transfer::Done(Err(TIMED_OUT));
    assert_eq!(failed.step(DONE, 9), (failed, None));
}

#[test]
fn flush_asks_and_checks() {
    let p = port();
    assert_eq!(p.flush(), Call::FlushFileBuffers { handle: 0x10 });
    assert_eq!(p.flush_reply(DONE), Ok(()));
    assert_eq!(p.flush_reply(Reply { value: 5, last_error: 5 }), Ok(()));
    assert_eq!(
        p.flush_reply(Reply { value: 0, last_error: 5 }),
        Err(Error { kind: ErrorKind::Io, code: 5 })
    );
}
