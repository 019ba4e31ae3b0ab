//! Verified core of a hardware abstraction layer for MATRIX Creator and
//! MATRIX Voice boards.
//!
//! The crate holds the register protocol, the three pin maps and the PWM bank
//! addressing. It performs no I/O: every transaction is queued on the [`bus::Bus`]
//! and a driver hands the queue to the device.

use vstd::prelude::*;

pub mod bus;
pub mod error;
pub mod gpio;

verus! {

/// The kinds of board that the FPGA can identify itself as.
#[derive(Debug, Clone, Copy, PartialEq, Eq, Structural)]
pub enum Device {
    /// A MATRIX Creator.
    Creator,
    /// A MATRIX Voice.
    Voice,
    /// A board that has not been identified.
    Unknown,
}

} // verus!
