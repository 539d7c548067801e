//! The control logic of a stroke machine that drives a 57AIM30 servo over
//! Modbus-RTU, verified with Verus.
//!
//! The crate does no input or output. Where the hardware has to act, a
//! state machine says what is to be done next and takes the outcome back,
//! so that its host is a loop around it.

pub mod command;
pub mod exchange;
pub mod frame;
pub mod http_api;
pub mod master;
pub mod motion;
pub mod motor_57aim30;
pub mod pins;
pub mod storage;
