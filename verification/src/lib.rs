//! A small control library for driving a speed controller from a gamepad:
//! a non-blocking transport adapter over a blocking, timeout-configured
//! serial port, the command derivation that turns two analog magnitudes
//! into a target speed, the sampling pipeline's step decisions, and
//! USB serial-port selection.

pub mod command;
pub mod discovery;
pub mod pipeline;
pub mod transport;
