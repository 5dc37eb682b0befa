//! Core logic of a home-theater automation daemon.
//!
//! The daemon coordinates power and audio routing between a TV, an AV
//! receiver (AVR) reachable only over the HDMI control bus, and a network
//! audio client.  Everything that can be stated and proved lives here:
//! the orchestration state machine, the bus-frame interpreter, the
//! streaming-proxy frame inspection, and the volume arithmetic.  The
//! blocking transports (control-bus device, relay strip, sockets) stay
//! outside; they feed plain values in and carry the returned commands out.

pub mod bus;
pub mod control;
pub mod orchestrator;
pub mod proxy;
pub mod state;
pub mod volume;
