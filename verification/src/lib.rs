//! Control core for two small bare-metal demos: a PWM brightness ramp and a
//! temperature poller that reports over a serial link.
//!
//! The crate holds the decisions only. Every hardware effect (a comparator
//! write, a busy-wait, a byte handed to a transmitter, a sensor query) is
//! described as a value that the firmware around the crate carries out, and
//! the outcome is handed back as a value.

pub mod poller;
pub mod ramp;
pub mod report;
pub mod serial;
