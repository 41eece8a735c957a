//! Verified core of an ESP-IDF I2C driver: bus and device configuration,
//! the hardware timeout register encoding, and the sequencing of the
//! ESP-IDF master and slave calls, stated as contracts over plain values.

pub mod error;
pub mod timeout;
pub mod units;
pub mod config;
pub mod master;
pub mod slave;
