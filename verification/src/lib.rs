//! Regulation core of an alternator charge regulator.
//!
//! The regulator measures the engine speed, takes the operator's button
//! presses and drives a programmable power supply that excites the
//! alternator's field. This crate holds what is decided on the way:
//!
//! - [`shared`]: the telemetry and setpoint stores and the events,
//! - [`zc`] and [`rpm`]: from pulse counts to engine speed events,
//! - [`control`]: the controller that computes the field current limit,
//! - [`statemachine`]: the regulator's modes,
//! - [`pps`], [`io`] and [`single`]: the power supply's register protocol,
//! - [`status`] and [`logger`]: what display and log are given.
//!
//! Analog quantities are fixed-point integers counted in millionths of their
//! unit (see [`units`]); IEEE-754 singles appear only on the power supply's
//! wire. Nothing here waits, blocks or touches a peripheral: the tasks that
//! do so call in with plain values.

mod arith;
pub mod control;
pub mod io;
pub mod logger;
pub mod pps;
pub mod rpm;
pub mod shared;
pub mod single;
pub mod statemachine;
pub mod status;
pub mod units;
pub mod zc;
