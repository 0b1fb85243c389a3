//! The instruments a session can poll, and the choice among them.
//!
//! Every device offers the same two steps. `begin` starts a poll and
//! `resume` carries it on; each answers with the transfer the driver is to
//! perform next, or with the end of the poll. A device runs one poll at a
//! time: beginning a poll drops the one under way.

pub mod frames;
pub mod http;
pub mod modbus;
pub mod ta612c;

use vstd::prelude::*;
use crate::config::Config;
use crate::devices::http::{HttpDevice, HttpState};
use crate::devices::modbus::{FieldbusState, ModbusDevice};
use crate::devices::ta612c::{Ta612cDevice, Ta612cState};
use crate::error::AcquisitionError;
use crate::transfer::{Outcome, OutcomeView, Transfer, TransferView};

verus! {

/// The kinds of device.
#[derive(Clone, Copy, Debug, PartialEq, Eq, Structural)]
pub enum DeviceKind {
    /// Registers read over a fieldbus on a serial line.
    Fieldbus,
    /// The four-probe thermometer on a serial line.
    FixedFrame,
    /// A document fetched from an HTTP endpoint.
    Http,
}

/// The device a configuration selects. A serial line goes before a network
/// address, and on a serial line a fieldbus goes before the thermometer.
pub open spec fn selected(config: Config) -> DeviceKind {
    match config.serial {
        Some(serial) => if serial.modbus is Some {
            DeviceKind::Fieldbus
        } else {
            DeviceKind::FixedFrame
        },
        None => DeviceKind::Http,
    }
}

/// Selects the device for a configuration.
pub fn select_device(config: &Config) -> (kind: DeviceKind)
    ensures
        kind == selected(*config),
        kind == DeviceKind::Fieldbus <==> config.serial is Some && config.serial.unwrap().modbus is Some,
        kind == DeviceKind::FixedFrame <==> config.serial is Some && config.serial.unwrap().modbus is None,
        kind == DeviceKind::Http <==> config.serial is None,
{
    match &config.serial {
        Some(serial) => match &serial.modbus {
            Some(_) => DeviceKind::Fieldbus,
            None => DeviceKind::FixedFrame,
        },
        None => DeviceKind::Http,
    }
}

/// A device of any kind.
#[derive(Debug)]
pub enum Device {
    Fieldbus(ModbusDevice),
    FixedFrame(Ta612cDevice),
    Http(HttpDevice),
}

/// A device as contracts see it.
pub enum DeviceState {
    Fieldbus(FieldbusState),
    FixedFrame(Ta612cState),
    Http(HttpState),
}

impl DeviceState {
    /// The kind of this device.
    pub open spec fn kind(self) -> DeviceKind {
        match self {
            DeviceState::Fieldbus(_) => DeviceKind::Fieldbus,
            DeviceState::FixedFrame(_) => DeviceKind::FixedFrame,
            DeviceState::Http(_) => DeviceKind::Http,
        }
    }

    /// The device a configuration describes, before its first poll: the one
    /// it selects, if it holds what that device needs.
    pub open spec fn configured(config: Config) -> Option<DeviceState> {
        match selected(config) {
            DeviceKind::Fieldbus => match FieldbusState::configured(config) {
                Some(state) => Some(DeviceState::Fieldbus(state)),
                None => None,
            },
            DeviceKind::FixedFrame => match Ta612cState::configured(config) {
                Some(state) => Some(DeviceState::FixedFrame(state)),
                None => None,
            },
            DeviceKind::Http => match HttpState::configured(config) {
                Some(state) => Some(DeviceState::Http(state)),
                None => None,
            },
        }
    }

    /// A poll begins.
    pub open spec fn begun(self) -> (DeviceState, TransferView) {
        match self {
            DeviceState::Fieldbus(state) => (DeviceState::Fieldbus(state.begun().0), state.begun().1),
            DeviceState::FixedFrame(state) => (DeviceState::FixedFrame(state.begun().0), state.begun().1),
            DeviceState::Http(state) => (DeviceState::Http(state.begun().0), state.begun().1),
        }
    }

    /// The driver reports an outcome.
    pub open spec fn resumed(self, outcome: OutcomeView) -> (DeviceState, TransferView) {
        match self {
            DeviceState::Fieldbus(state) => (
                DeviceState::Fieldbus(state.resumed(outcome).0),
                state.resumed(outcome).1,
            ),
            DeviceState::FixedFrame(state) => (
                DeviceState::FixedFrame(state.resumed(outcome).0),
                state.resumed(outcome).1,
            ),
            DeviceState::Http(state) => (DeviceState::Http(state.resumed(outcome).0), state.resumed(outcome).1),
        }
    }
}

impl View for Device {
    type V = DeviceState;

    open spec fn view(&self) -> DeviceState {
        match *self {
            Device::Fieldbus(device) => DeviceState::Fieldbus(device@),
            Device::FixedFrame(device) => DeviceState::FixedFrame(device@),
            Device::Http(device) => DeviceState::Http(device@),
        }
    }
}

impl Device {
    /// Builds the device a configuration selects. It fails if the
    /// configuration lacks what that device needs.
    pub fn new(config: Config) -> (out: Result<Device, AcquisitionError>)
        ensures
            match out {
                Ok(device) => DeviceState::configured(config) == Some(device@),
                Err(error) => error == AcquisitionError::Configuration && DeviceState::configured(config) is None,
            },
            out matches Ok(device) ==> device@.kind() == selected(config),
    {
        match select_device(&config) {
            DeviceKind::Fieldbus => match ModbusDevice::new(config) {
                Ok(device) => Ok(Device::Fieldbus(device)),
                Err(error) => Err(error),
            },
            DeviceKind::FixedFrame => match Ta612cDevice::new(config) {
                Ok(device) => Ok(Device::FixedFrame(device)),
                Err(error) => Err(error),
            },
            DeviceKind::Http => match HttpDevice::new(config) {
                Ok(device) => Ok(Device::Http(device)),
                Err(error) => Err(error),
            },
        }
    }

    /// The kind of this device.
    pub fn kind(&self) -> (kind: DeviceKind)
        ensures
            kind == self@.kind(),
    {
        match self {
            Device::Fieldbus(_) => DeviceKind::Fieldbus,
            Device::FixedFrame(_) => DeviceKind::FixedFrame,
            Device::Http(_) => DeviceKind::Http,
        }
    }

    /// Begins a poll and says what to transfer first.
    pub fn begin(&mut self) -> (ask: Transfer)
        ensures
            (final(self)@, ask@) == old(self)@.begun(),
    {
        match self {
            Device::Fieldbus(device) => device.begin(),
            Device::FixedFrame(device) => device.begin(),
            Device::Http(device) => device.begin(),
        }
    }

    /// Takes the outcome of the transfer asked for last and says what to
    /// transfer next, or how the poll ended.
    pub fn resume(&mut self, outcome: Outcome) -> (ask: Transfer)
        ensures
            (final(self)@, ask@) == old(self)@.resumed(outcome@),
    {
        match self {
            Device::Fieldbus(device) => device.resume(outcome),
            Device::FixedFrame(device) => device.resume(outcome),
            Device::Http(device) => device.resume(outcome),
        }
    }
}

/// Whatever a poll went through and however it ended, the next poll of a
/// device begins as its first one did: a poll that failed leaves nothing
/// behind.
pub proof fn lemma_next_poll_starts_afresh(state: DeviceState, outcome: OutcomeView)
    ensures
        state.resumed(outcome).0.begun() == state.begun(),
        state.begun().0.begun() == state.begun(),
        state.resumed(outcome).0.kind() == state.kind(),
        state.begun().0.kind() == state.kind(),
{
    match state {
        DeviceState::Fieldbus(bus) => {
            crate::devices::modbus::lemma_next_poll_starts_afresh(bus, outcome);
        },
        DeviceState::FixedFrame(_) => {},
        DeviceState::Http(_) => {},
    }
}

} // verus!
