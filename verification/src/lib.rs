//! Driver logic for ST7735 TFT display controllers.
//!
//! The controller is driven over a serial bus with two more lines: one that
//! tells commands from data, and one that resets the controller. This crate
//! holds everything the driver decides and leaves out everything it does to
//! hardware:
//!
//! - a [`ST7735`] session holds the panel's configuration and answers each
//!   request (initialize, rotate, set a pixel, fill a window, stream
//!   pixels) with a plan, the list of [`Action`]s that carry it out;
//! - an [`Execution`] walks through a plan: it hands out the pending
//!   action, takes the report of how it went, and ends with the first
//!   failure or with success after the last action.
//!
//! The owner of the bus and of the lines performs the actions and reports
//! back. Nothing here blocks, sleeps or fails on its own.
//!
//! Every plan is specified exactly, as a sequence of [`action::ActionView`]s
//! built from the framing rules in [`protocol`]. The module [`laws`] proves
//! what follows from that for every session.

pub mod action;
pub mod execution;
pub mod instruction;
pub mod laws;
pub mod orientation;
pub mod protocol;
pub mod session;
pub mod tuning;

pub use crate::action::Action;
pub use crate::execution::Execution;
pub use crate::instruction::Instruction;
pub use crate::orientation::Orientation;
pub use crate::session::ST7735;
