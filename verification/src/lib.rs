//! Control logic for a run with the SSP3 single-channel photometer.
//!
//! The crate holds the parts of a measurement run that decide something:
//!
//! - [`ssp3`]: the wire protocol of the instrument, and the driver that
//!   leads one operation at a time through its commands;
//! - [`worker`]: the lockstep worker that serves requests with the driver;
//! - [`calibration`]: the search for an integration time, and the test of
//!   a reading's spread;
//! - [`measurement`]: the sequencing of stars, filters and sky readings;
//! - [`trace`]: what holds of whole runs;
//! - [`common`] and [`ui`]: the plan of a run, and how one is put together;
//! - [`text`]: numbers in messages.
//!
//! None of them touches a serial line, a channel or a dialog. The driver,
//! the worker and the run are step functions from a state and an event to
//! the next state and an action, which the surrounding program carries out.

pub mod text;

pub mod common;

pub mod calibration;

pub mod ssp3;

pub mod measurement;

pub mod trace;

pub mod worker;

pub mod ui;
