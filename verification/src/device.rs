use vstd::prelude::*;

use crate::error::Error;
use crate::protocol::SocketState;
use crate::socket::SmartSocket;

verus! {

/// The reading every thermometr reports, in tenths of a degree Celsius.
pub const AMBIENT_DECIDEGREES: i64 = 215;

/// A thermometr: a stateless device that reports a temperature reading in
/// tenths of a degree Celsius.
#[derive(Debug, Clone, Copy, PartialEq, Eq, Structural)]
pub struct Thermometr {}

impl Thermometr {
    /// A fresh thermometr.
    pub fn new() -> (r: Thermometr)
        ensures
            r == (Thermometr {  }),
    {
        Thermometr {  }
    }

    /// The temperature reading, in tenths of a degree Celsius. Reading a
    /// thermometr never fails.
    pub fn temperature(&self) -> (r: Result<i64, Error>)
        ensures
            r == Ok::<i64, Error>(AMBIENT_DECIDEGREES),
    {
        Ok(AMBIENT_DECIDEGREES)
    }
}

/// The closed set of device kinds. A room holds at most one device of each
/// kind.
#[derive(Debug, Clone, Copy, PartialEq, Eq, Structural)]
pub enum DeviceKind {
    Thermometr,
    SmartSocket,
}

/// A kind-specific snapshot of one device's state: a temperature reading in
/// tenths of a degree, or a socket's on/off state and power draw.
#[derive(Debug, Clone, Copy, PartialEq, Eq, Structural)]
pub enum StateSnapshot {
    Temperature(i64),
    Socket(SocketState),
}

/// A device: one of the closed set of kinds, each carrying what its kind
/// needs. A socket carries its connection.
#[derive(Debug, Clone, Copy, PartialEq, Eq, Structural)]
pub enum Device {
    Thermometr(Thermometr),
    SmartSocket(SmartSocket),
}

impl Device {
    /// The kind of this device.
    pub open spec fn kind_spec(self) -> DeviceKind {
        match self {
            Device::Thermometr(_) => DeviceKind::Thermometr,
            Device::SmartSocket(_) => DeviceKind::SmartSocket,
        }
    }

    /// What querying this device's state returns: a thermometr always
    /// answers with its reading; a socket answers with its endpoint's state
    /// over a live connection and fails with `CommunicationError` over a
    /// lost one.
    pub open spec fn state_outcome(self) -> Result<StateSnapshot, Error> {
        match self {
            Device::Thermometr(_) => Ok(StateSnapshot::Temperature(AMBIENT_DECIDEGREES)),
            Device::SmartSocket(s) => if s.is_connected() {
                Ok(StateSnapshot::Socket(s.endpoint().state_view()))
            } else {
                Err(Error::CommunicationError)
            },
        }
    }

    /// The kind of this device.
    pub fn kind(&self) -> (k: DeviceKind)
        ensures
            k == self.kind_spec(),
    {
        match self {
            Device::Thermometr(_) => DeviceKind::Thermometr,
            Device::SmartSocket(_) => DeviceKind::SmartSocket,
        }
    }

    /// Queries the device's live state.
    pub fn state(&self) -> (r: Result<StateSnapshot, Error>)
        ensures
            r == self.state_outcome(),
    {
        match self {
            Device::Thermometr(t) => {
                match t.temperature() {
                    Ok(deg) => Ok(StateSnapshot::Temperature(deg)),
                    Err(e) => Err(e),
                }
            },
            Device::SmartSocket(s) => {
                match s.state() {
                    Ok(st) => Ok(StateSnapshot::Socket(st)),
                    Err(e) => Err(e),
                }
            },
        }
    }
}

impl From<Thermometr> for Device {
    /// Wraps a thermometr as a device.
    fn from(t: Thermometr) -> (r: Device) {
        Device::Thermometr(t)
    }
}

impl vstd::std_specs::convert::FromSpecImpl<Thermometr> for Device {
    open spec fn obeys_from_spec() -> bool {
        true
    }

    open spec fn from_spec(t: Thermometr) -> Device {
        Device::Thermometr(t)
    }
}

impl From<SmartSocket> for Device {
    /// Wraps a smart socket as a device.
    fn from(s: SmartSocket) -> (r: Device) {
        Device::SmartSocket(s)
    }
}

impl vstd::std_specs::convert::FromSpecImpl<SmartSocket> for Device {
    open spec fn obeys_from_spec() -> bool {
        true
    }

    open spec fn from_spec(s: SmartSocket) -> Device {
        Device::SmartSocket(s)
    }
}

} // verus!
