//! Turns the events of a MIDI controller into keyboard input.
//!
//! The library decides and the host acts. [`dispatch`] routes an event of the
//! device to a control of a mapping table, [`output`] reads the event's value
//! against the control and says which effects the selected action asks for,
//! and [`keyboard`] builds the input record for each key event. [`midi`] and
//! [`tray`] decide the steps of the transport and of the status icon, and
//! [`profile`] holds the tables for the OP-1.
//!
//! Nothing here sleeps, spawns or talks to the system: the host performs the
//! effects that it is handed, in the order in which it is handed them.

pub mod dispatch;
pub mod keyboard;
pub mod midi;
pub mod output;
pub mod profile;
pub mod tray;
