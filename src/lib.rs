//! Shared-state logic of a small multitasking firmware: statistics registry,
//! pulse encoder state machine, RPM estimation, weighted-position sensing and
//! the serial command console.

pub mod command;
pub mod console;
pub mod encoder;
pub mod line_buffer;
pub mod position;
pub mod rpm;
pub mod stats;
pub mod text;
