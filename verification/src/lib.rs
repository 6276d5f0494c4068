//! Decision logic of a Bluetooth Low Energy scanner: how discovered
//! peripherals are rendered, how a device is located by address, and
//! which radio operation follows which.

pub mod error;
pub mod text;
pub mod snapshot;
pub mod locator;
pub mod session;
pub mod run;
pub mod laws;
