//! Gateway core for exposing I2C buses to remote callers.
//!
//! The crate owns the set of opened bus device handles, validates every
//! argument of an inbound request before any hardware is touched, builds the
//! exact message sequence for each of the transaction shapes, and maps
//! hardware failures into a structured error model.  Transport, wire encoding
//! and process bootstrap live outside this crate.

pub mod bus;
pub mod dispatch;
pub mod error;
pub mod message;
pub mod registry;
pub mod validate;

pub use bus::BusInfo;
pub use dispatch::{NewService, Outcome, Server};
pub use error::{ArgName, HardwareError, Reason, RequestError, ValidationError};
pub use message::I2cMessage;
pub use registry::{init_buses, BusDescriptor, Registry, MAX_BUSES};
