//! Packet-processing engine of one drone of a source-routed network.
//!
//! The drone is a sequential state machine. Each command of the controller and
//! each packet of a neighbor is one step: the step updates the drone and
//! answers with the packets to hand to neighbors and the events to report.
//! Receiving, sending and waiting are left to the runtime that owns the drone.

pub mod network;
pub mod packet;
pub mod drop_rate;
pub mod neighbors;
pub mod flood;
pub mod controller;
pub mod protocol;
pub mod drone;
pub mod laws;
