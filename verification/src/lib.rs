//! Protocol translation for a fleet of remotely commanded devices.
//!
//! Generic actuator and sensor commands are converted into the exact byte
//! frames each device family expects on the wire. The crate holds the frame
//! encoders, the per-family protocol handlers with their channel state, and
//! the device configuration resolver that matches discovered devices to
//! protocol families and capability attributes.
//!
//! Transport drivers, configuration file parsing and the asynchronous tasks
//! that drive the handlers live outside this crate: callers hand the
//! handlers plain command records and perform the write and subscribe
//! operations the handlers return.

pub mod device_configuration;
pub mod dg_lab_v2;
pub mod dg_lab_v3;
pub mod errors;
pub mod galaku_one_engine;
pub mod hardware;
pub mod messages;
