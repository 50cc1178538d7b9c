//! Core of a hydroponics control appliance: a line-oriented serial protocol
//! codec, a sliding-window sample classifier, a pulse monitor with a
//! refractory interval, a cooperative corrective-action scheduler, and a
//! persistent settings store.
//!
//! Probe readings and thresholds are fixed-point numbers in thousandths of a
//! unit (PPM for the dissolved-solids channel, pH for the acidity channel);
//! wall-clock times are whole seconds since the Unix epoch.

pub mod analyser;
pub mod codec;
pub mod gui;
pub mod monitor;
pub mod scheduler;
pub mod store;
pub mod tasks;
