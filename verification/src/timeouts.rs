//! The native timeout record and how a caller's timeout is written into it.

use crate::time::Duration;
use vstd::prelude::*;

verus! {

/// The largest value of a Win32 `DWORD`. In a timeout record the system
/// reads it as a marker, never as a number of milliseconds.
pub const MAXDWORD: u32 = 0xFFFF_FFFF;

/// The timeout record of a communications device, in milliseconds.
#[derive(Clone, Copy, Debug, PartialEq, Eq, Structural)]
pub struct CommTimeouts {
    pub read_interval_timeout: u32,
    pub read_total_timeout_multiplier: u32,
    pub read_total_timeout_constant: u32,
    pub write_total_timeout_multiplier: u32,
    pub write_total_timeout_constant: u32,
}

/// The milliseconds that a non-empty timeout is enforced with: its whole
/// milliseconds, but at least 1 and at most `MAXDWORD - 1`.
pub open spec fn clamped_millis(timeout: Duration) -> u32 {
    if timeout.as_millis() < 1 {
        1
    } else if timeout.as_millis() >= MAXDWORD {
        (MAXDWORD - 1) as u32
    } else {
        timeout.as_millis() as u32
    }
}

impl CommTimeouts {
    /// The record that switches every timeout off: transfers wait for as
    /// long as it takes.
    pub open spec fn disabled() -> CommTimeouts {
        CommTimeouts {
            read_interval_timeout: 0,
            read_total_timeout_multiplier: 0,
            read_total_timeout_constant: 0,
            write_total_timeout_multiplier: 0,
            write_total_timeout_constant: 0,
        }
    }

    /// The record that bounds reads and writes by `millis` milliseconds. A
    /// read returns as soon as any bytes are there: the interval timeout
    /// holds the marker value that asks for this.
    pub open spec fn bounded(millis: u32) -> CommTimeouts {
        CommTimeouts {
            read_interval_timeout: MAXDWORD,
            read_total_timeout_multiplier: 0,
            read_total_timeout_constant: millis,
            write_total_timeout_multiplier: 0,
            write_total_timeout_constant: millis,
        }
    }

    /// The record for a caller's timeout. An empty timeout disables
    /// timeouts; any other is enforced with its clamped milliseconds.
    pub open spec fn of(timeout: Duration) -> CommTimeouts {
        if timeout.as_nanos() == 0 {
            CommTimeouts::disabled()
        } else {
            CommTimeouts::bounded(clamped_millis(timeout))
        }
    }

    /// Computes the record for a caller's timeout.
    pub fn for_duration(timeout: Duration) -> (timeouts: CommTimeouts)
        ensures
            timeouts == CommTimeouts::of(timeout),
    {
        if timeout.is_zero() {
            return CommTimeouts {
                read_interval_timeout: 0,
                read_total_timeout_multiplier: 0,
                read_total_timeout_constant: 0,
                write_total_timeout_multiplier: 0,
                write_total_timeout_constant: 0,
            };
        }
        let secs: u64 = timeout.as_secs();
        let sub: u32 = timeout.subsec_millis();
        let millis: u32 = if secs > 4_294_967 {
            MAXDWORD - 1
        } else {
            let total: u64 = secs * 1000 + sub as u64;
            if total < 1 {
                1
            } else if total >= MAXDWORD as u64 {
                MAXDWORD - 1
            } else {
                total as u32
            }
        };
        CommTimeouts {
            read_interval_timeout: MAXDWORD,
            read_total_timeout_multiplier: 0,
            read_total_timeout_constant: millis,
            write_total_timeout_multiplier: 0,
            write_total_timeout_constant: millis,
        }
    }
}

/// An empty timeout leaves no timeout in force: every field of the record
/// is zero.
pub proof fn lemma_zero_timeout_disables(timeout: Duration)
    requires
        timeout.as_nanos() == 0,
    ensures
        CommTimeouts::of(timeout) == CommTimeouts::disabled(),
        CommTimeouts::of(timeout).read_interval_timeout == 0,
        CommTimeouts::of(timeout).read_total_timeout_multiplier == 0,
        CommTimeouts::of(timeout).read_total_timeout_constant == 0,
        CommTimeouts::of(timeout).write_total_timeout_multiplier == 0,
        CommTimeouts::of(timeout).write_total_timeout_constant == 0,
{
}

/// A timeout of a millisecond or more is enforced for its whole
/// milliseconds where they lie in `1 ..= MAXDWORD - 1`, and for
/// `MAXDWORD - 1` where they lie above; the same bound holds for reads and
/// writes, and it is never the marker value itself.
pub proof fn lemma_timeout_clamped(timeout: Duration)
    requires
        timeout.as_millis() >= 1,
    ensures
        CommTimeouts::of(timeout) == CommTimeouts::bounded(clamped_millis(timeout)),
        1 <= clamped_millis(timeout) <= MAXDWORD - 1,
        timeout.as_millis() <= MAXDWORD - 1 ==> clamped_millis(timeout) == timeout.as_millis(),
        timeout.as_millis() > MAXDWORD - 1 ==> clamped_millis(timeout) == MAXDWORD - 1,
        CommTimeouts::of(timeout).read_total_timeout_constant == clamped_millis(timeout),
        CommTimeouts::of(timeout).write_total_timeout_constant == clamped_millis(timeout),
        CommTimeouts::of(timeout).read_interval_timeout == MAXDWORD,
{
}

/// A timeout that is not empty but shorter than a millisecond is enforced
/// as one millisecond, not switched off.
pub proof fn lemma_short_timeout_is_one_milli(timeout: Duration)
    requires
        timeout.as_nanos() > 0,
        timeout.as_millis() == 0,
    ensures
        CommTimeouts::of(timeout) == CommTimeouts::bounded(1),
{
}

} // verus!
