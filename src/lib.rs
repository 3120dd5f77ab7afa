//! Lifecycle driver for a u-blox style cellular module: a bring-up and
//! recovery state machine, a network command-and-event layer, and a
//! fixed-capacity socket registry, with their behaviour stated as contracts.
//!
//! The command transport, the timer and the pins are capabilities that the
//! application supplies by implementing `AtClient`, `Timer`, `OutputPin` and
//! `InputPin`. Every exchange made through the transport is recorded in a
//! ghost log, over which the contracts say which commands were sent, in
//! which order, and what each reply led to.

pub mod client;
pub mod command;
pub mod error;
pub mod network;
pub mod sockets;
pub mod state;
