//! Acquisition engine of a coffee-roaster monitor: it polls one instrument
//! (a fieldbus over a serial line, a fixed-frame serial thermometer, or an
//! HTTP endpoint) and hands out the latest set of readings.
//!
//! The library performs no I/O. Each device is a state machine that asks for
//! one transfer at a time and is given its outcome; the session decides when
//! a polling loop may start, what a finished poll leads to, and when the
//! loop ends.

pub mod config;
pub mod devices;
pub mod error;
pub mod reading;
pub mod serial;
pub mod session;
pub mod transfer;
