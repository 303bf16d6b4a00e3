//! A verified smart-home library.
//!
//! A `Home` owns uniquely named `Room`s; a `Room` owns uniquely named,
//! kind-unique `Device`s. A device is either a `Thermometr` or a
//! `SmartSocket`; the socket talks to its endpoint through a small framed
//! request/response protocol whose codec is verified here. `Home::state`
//! aggregates every device's state into a `Report`, recording per-device
//! failures instead of aborting.

pub mod address;
pub mod device;
pub mod error;
pub mod home;
pub mod protocol;
pub mod report;
pub mod room;
pub mod socket;

pub use address::{parse_address, Address};
pub use device::{Device, DeviceKind, StateSnapshot, Thermometr, AMBIENT_DECIDEGREES};
pub use error::Error;
pub use home::{Home, RoomEntry};
pub use protocol::SocketState;
pub use report::{Report, ReportEntry};
pub use room::{DeviceEntry, Room};
pub use socket::{Connection, SmartSocket, SocketEndpoint, DEFAULT_POWER_DECIWATTS};
