//! Core state machine of a terminal operator console.
//!
//! The console subscribes to a message bus, turns decoded bus notifications
//! into per-tab view state, and turns keypresses into state transitions and
//! outbound commands. Everything here is pure state and text: the terminal,
//! the bus transport and the wire decoding live outside this crate and hand
//! it plain values.

pub mod apps;
pub mod config;
pub mod controller;
pub mod dashboard;
pub mod events;
pub mod logs;
pub mod peers;
pub mod select;
pub mod text;
pub mod wizard;
