//! Reading and changing the line configuration of an open port.
//!
//! The system hands out and takes the configuration as one record. A
//! setting is read out of the record that the system hands out; it is
//! changed by reading the record, changing the setting's fields in it, and
//! writing the whole record back.

use crate::com::COMPort;
use crate::config::{DataBits, FlowControl, Parity, StopBits};
use crate::dcb::Dcb;
use crate::error::Error;
use crate::os::{Call, Reply, FALSE};
use vstd::prelude::*;

verus! {

/// A setting of the line configuration, with the value to give it.
#[derive(Clone, Copy, Debug, PartialEq, Eq, Structural)]
pub enum Setting {
    BaudRate(u32),
    DataBits(DataBits),
    Parity(Parity),
    StopBits(StopBits),
    FlowControl(FlowControl),
}

impl Setting {
    /// The record with this setting written into it and nothing else
    /// changed.
    pub open spec fn applied_to(self, dcb: Dcb) -> Dcb {
        match self {
            Setting::BaudRate(baud_rate) => dcb.with_baud_rate(baud_rate),
            Setting::DataBits(data_bits) => dcb.with_data_bits(data_bits),
            Setting::Parity(parity) => dcb.with_parity(parity),
            Setting::StopBits(stop_bits) => dcb.with_stop_bits(stop_bits),
            Setting::FlowControl(flow_control) => dcb.with_flow_control(flow_control),
        }
    }

    /// Writes the setting into the record.
    pub fn apply(self, dcb: &mut Dcb)
        ensures
            *final(dcb) == self.applied_to(*old(dcb)),
    {
        match self {
            Setting::BaudRate(baud_rate) => crate::dcb::set_baud_rate(dcb, baud_rate),
            Setting::DataBits(data_bits) => crate::dcb::set_data_bits(dcb, data_bits),
            Setting::Parity(parity) => crate::dcb::set_parity(dcb, parity),
            Setting::StopBits(stop_bits) => crate::dcb::set_stop_bits(dcb, stop_bits),
            Setting::FlowControl(flow_control) => crate::dcb::set_flow_control(dcb, flow_control),
        }
    }
}

/// The record that `GetCommState` filled in, where the call succeeded, and
/// the call's error where it did not.
pub open spec fn state_read(reply: Reply, dcb: Dcb) -> Result<Dcb, Error> {
    if reply.value == FALSE {
        Err(Error::of_os(reply.last_error))
    } else {
        Ok(dcb)
    }
}

/// What the reply to `GetCommState` means; `dcb` is the record that the
/// call filled in.
pub fn get_dcb(reply: Reply, dcb: Dcb) -> (result: Result<Dcb, Error>)
    ensures
        result == state_read(reply, dcb),
{
    if reply.value == FALSE {
        Err(Error::from_os_code(reply.last_error))
    } else {
        Ok(dcb)
    }
}

/// What the reply to `SetCommState` means.
pub fn set_dcb(reply: Reply) -> (result: Result<(), Error>)
    ensures
        result == reply.outcome(),
{
    reply.status()
}

/// Where the change of a setting stands.
#[derive(Clone, Copy, Debug, PartialEq, Eq)]
pub enum Update {
    /// `GetCommState` was asked for.
    Reading { handle: usize, setting: Setting },
    /// The record was read and changed; `SetCommState` was asked for.
    Writing,
    /// The change is in force, or it failed and nothing was changed.
    Done(Result<(), Error>),
}

impl Update {
    /// The state after `reply`, and the call to make next, if any. `dcb`
    /// is the record that the call filled in; it counts only for the reply
    /// to `GetCommState`.
    ///
    /// The record written back is the record read, complete, with the
    /// setting's fields changed. Where reading fails nothing is written.
    pub open spec fn next(self, reply: Reply, dcb: Dcb) -> (Update, Option<Call>) {
        match self {
            Update::Reading { handle, setting } => match state_read(reply, dcb) {
                Ok(current) => (
                    Update::Writing,
                    Some(Call::SetCommState { handle, dcb: setting.applied_to(current) }),
                ),
                Err(error) => (Update::Done(Err(error)), None),
            },
            Update::Writing => (Update::Done(reply.outcome()), None),
            Update::Done(result) => (Update::Done(result), None),
        }
    }

    /// Takes the reply to the call made last and says what to do next:
    /// make the call returned, or, where none is returned, stop.
    pub fn step(self, reply: Reply, dcb: Dcb) -> (result: (Update, Option<Call>))
        ensures
            result == self.next(reply, dcb),
            result.1 is None <==> result.0 is Done,
    {
        match self {
            Update::Reading { handle, setting } => match get_dcb(reply, dcb) {
                Ok(current) => {
                    let mut changed = current;
                    setting.apply(&mut changed);
                    (Update::Writing, Some(Call::SetCommState { handle, dcb: changed }))
                },
                Err(error) => (Update::Done(Err(error)), None),
            },
            Update::Writing => (Update::Done(set_dcb(reply)), None),
            Update::Done(result) => (Update::Done(result), None),
        }
    }

    /// The result of the change, once it is over.
    pub fn finish(self) -> (result: Option<Result<(), Error>>)
        ensures
            result == match self {
                Update::Done(r) => Some(r),
                _ => None::<Result<(), Error>>,
            },
    {
        match self {
            Update::Done(r) => Some(r),
            _ => None,
        }
    }
}

impl COMPort {
    /// Starts the change of one setting.
    pub fn update(&self, setting: Setting) -> (result: (Update, Call))
        ensures
            result.0 == (Update::Reading { handle: self.handle, setting }),
            result.1 == (Call::GetCommState { handle: self.handle }),
    {
        (
            Update::Reading { handle: self.handle, setting },
            Call::GetCommState { handle: self.handle },
        )
    }

    pub fn set_baud_rate(&self, baud_rate: u32) -> (result: (Update, Call))
        ensures
            result.0 == (Update::Reading {
                handle: self.handle,
                setting: Setting::BaudRate(baud_rate),
            }),
            result.1 == (Call::GetCommState { handle: self.handle }),
    {
        self.update(Setting::BaudRate(baud_rate))
    }

    pub fn set_data_bits(&self, data_bits: DataBits) -> (result: (Update, Call))
        ensures
            result.0 == (Update::Reading {
                handle: self.handle,
                setting: Setting::DataBits(data_bits),
            }),
            result.1 == (Call::GetCommState { handle: self.handle }),
    {
        self.update(Setting::DataBits(data_bits))
    }

    pub fn set_parity(&self, parity: Parity) -> (result: (Update, Call))
        ensures
            result.0 == (Update::Reading { handle: self.handle, setting: Setting::Parity(parity) }),
            result.1 == (Call::GetCommState { handle: self.handle }),
    {
        self.update(Setting::Parity(parity))
    }

    pub fn set_stop_bits(&self, stop_bits: StopBits) -> (result: (Update, Call))
        ensures
            result.0 == (Update::Reading {
                handle: self.handle,
                setting: Setting::StopBits(stop_bits),
            }),
            result.1 == (Call::GetCommState { handle: self.handle }),
    {
        self.update(Setting::StopBits(stop_bits))
    }

    pub fn set_flow_control(&self, flow_control: FlowControl) -> (result: (Update, Call))
        ensures
            result.0 == (Update::Reading {
                handle: self.handle,
                setting: Setting::FlowControl(flow_control),
            }),
            result.1 == (Call::GetCommState { handle: self.handle }),
    {
        self.update(Setting::FlowControl(flow_control))
    }

    /// The call that reads the configuration for its baud rate.
    pub fn baud_rate(&self) -> (call: Call)
        ensures
            call == (Call::GetCommState { handle: self.handle }),
    {
        Call::GetCommState { handle: self.handle }
    }

    /// The baud rate in the record that the system handed out.
    pub fn baud_rate_reply(&self, reply: Reply, dcb: Dcb) -> (result: Result<u32, Error>)
        ensures
            result == match state_read(reply, dcb) {
                Ok(current) => Ok::<u32, Error>(current.baud_rate),
                Err(error) => Err::<u32, Error>(error),
            },
    {
        let current = get_dcb(reply, dcb)?;
        Ok(crate::dcb::baud_rate(&current))
    }

    /// The call that reads the configuration for its data bits.
    pub fn data_bits(&self) -> (call: Call)
        ensures
            call == (Call::GetCommState { handle: self.handle }),
    {
        Call::GetCommState { handle: self.handle }
    }

    /// The data bits in the record that the system handed out; `Unknown`
    /// where the record holds a byte size that no port is ever opened with.
    pub fn data_bits_reply(&self, reply: Reply, dcb: Dcb) -> (result: Result<DataBits, Error>)
        ensures
            result == match state_read(reply, dcb) {
                Ok(current) => current.data_bits(),
                Err(error) => Err::<DataBits, Error>(error),
            },
    {
        let current = get_dcb(reply, dcb)?;
        crate::dcb::data_bits(&current)
    }

    /// The call that reads the configuration for its parity mode.
    pub fn parity(&self) -> (call: Call)
        ensures
            call == (Call::GetCommState { handle: self.handle }),
    {
        Call::GetCommState { handle: self.handle }
    }

    /// The parity mode in the record that the system handed out; `Unknown`
    /// for mark and space parity.
    pub fn parity_reply(&self, reply: Reply, dcb: Dcb) -> (result: Result<Parity, Error>)
        ensures
            result == match state_read(reply, dcb) {
                Ok(current) => current.parity(),
                Err(error) => Err::<Parity, Error>(error),
            },
    {
        let current = get_dcb(reply, dcb)?;
        crate::dcb::parity(&current)
    }

    /// The call that reads the configuration for its stop bits.
    pub fn stop_bits(&self) -> (call: Call)
        ensures
            call == (Call::GetCommState { handle: self.handle }),
    {
        Call::GetCommState { handle: self.handle }
    }

    /// The stop bits in the record that the system handed out; `Unknown`
    /// for one and a half stop bits.
    pub fn stop_bits_reply(&self, reply: Reply, dcb: Dcb) -> (result: Result<StopBits, Error>)
        ensures
            result == match state_read(reply, dcb) {
                Ok(current) => current.stop_bits(),
                Err(error) => Err::<StopBits, Error>(error),
            },
    {
        let current = get_dcb(reply, dcb)?;
        crate::dcb::stop_bits(&current)
    }

    /// The call that reads the configuration for its flow control.
    pub fn flow_control(&self) -> (call: Call)
        ensures
            call == (Call::GetCommState { handle: self.handle }),
    {
        Call::GetCommState { handle: self.handle }
    }

    /// The flow control that the record handed out amounts to.
    pub fn flow_control_reply(&self, reply: Reply, dcb: Dcb) -> (result: Result<FlowControl, Error>)
        ensures
            result == match state_read(reply, dcb) {
                Ok(current) => Ok::<FlowControl, Error>(current.flow_control()),
                Err(error) => Err::<FlowControl, Error>(error),
            },
    {
        let current = get_dcb(reply, dcb)?;
        Ok(crate::dcb::flow_control(&current))
    }
}

/// Setting and then getting gives back what was set. Where a change goes
/// through, the record written is the record read with the setting in it;
/// and where the device then hands out the record that was written, each
/// setting reads as the value it was given.
pub proof fn lemma_set_then_get(
    handle: usize,
    setting: Setting,
    read: Reply,
    current: Dcb,
    reread: Reply,
)
    requires
        read.value != FALSE,
        reread.value != FALSE,
    ensures
        (Update::Reading { handle, setting }).next(read, current) == (
            Update::Writing,
            Some(Call::SetCommState { handle, dcb: setting.applied_to(current) }),
        ),
        state_read(reread, setting.applied_to(current)) == Ok::<Dcb, Error>(
            setting.applied_to(current),
        ),
        setting matches Setting::BaudRate(v) ==> setting.applied_to(current).baud_rate == v,
        setting matches Setting::DataBits(v) ==> setting.applied_to(current).data_bits() == Ok::<
            DataBits,
            Error,
        >(v),
        setting matches Setting::Parity(v) ==> setting.applied_to(current).parity() == Ok::<
            Parity,
            Error,
        >(v),
        setting matches Setting::StopBits(v) ==> setting.applied_to(current).stop_bits() == Ok::<
            StopBits,
            Error,
        >(v),
        setting matches Setting::FlowControl(v) ==> setting.applied_to(current).flow_control()
            == v,
{
}

/// A change that fails while reading writes nothing, and a change that
/// goes through writes exactly once.
pub proof fn lemma_update_writes_whole_record_once(
    handle: usize,
    setting: Setting,
    read: Reply,
    current: Dcb,
    written: Reply,
    ignored: Dcb,
)
    ensures
        read.value == FALSE ==> (Update::Reading { handle, setting }).next(read, current) == (
            Update::Done(Err(Error::of_os(read.last_error))),
            None::<Call>,
        ),
        Update::Writing.next(written, ignored) == (
            Update::Done(written.outcome()),
            None::<Call>,
        ),
{
}

} // verus!
