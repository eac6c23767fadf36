//! Shared vocabulary of the shack home-automation system: routing keys for the
//! message exchanges, configuration and event types, and the request table of
//! the TCP client.

pub mod amqp;
pub mod api;
pub mod config;
pub mod event;
pub mod program;
pub mod tcp;
pub mod text;

use vstd::prelude::*;

verus! {

/// A device address on the bus.
pub type Address = u16;

/// A value produced by an output or read from an input.
pub type OutputValue = u16;

/// Value generated by _input_ devices on logic high.
pub const HIGH: OutputValue = u16::MAX;

/// Value generated by _input_ devices on logic low.
pub const LOW: OutputValue = u16::MIN;

} // verus!
