//! Data of the MATRIX boards.

use vstd::prelude::*;

verus! {

/// The identity code of a MATRIX Creator.
pub const MATRIX_CREATOR: u32 = 0x05C3_44E8;

/// The identity code of a MATRIX Voice.
pub const MATRIX_VOICE: u32 = 0x6032_BAD2;

/// The oscillator that clocks the FPGA, in Hz.
pub const FPGA_CLOCK: u32 = 50_000_000;

} // verus!
