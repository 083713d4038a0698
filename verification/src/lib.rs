//! Policy engine of a compositor configuration: which action a key chord
//! runs, how the outputs are laid out when a connector changes, and what the
//! status line says at each tick of a wall-clock aligned timer.
//!
//! The engine decides and never performs: every entry point takes the state
//! of the host as plain values and returns the commands the host is to carry
//! out.

pub mod action;
pub mod bindings;
pub mod chord;
pub mod clock;
pub mod decimal;
pub mod outputs;
pub mod registry;
pub mod schedule;
pub mod seat;
pub mod status;
